//! The stack of grids that makes up a scene, with relative addressing.
use vstd::prelude::*;
use crate::layer::{Layer, Layer2D, Layer2DView, LayerView, grid_cell};

verus! {

/// The absolute index that the relative index `l` names in a stack of `n`:
/// a positive `l` counts up from the bottom, a non-positive one down from the
/// top (`0` is the top).
pub open spec fn locate(n: int, l: int) -> int {
    if l > 0 {
        l
    } else {
        n - 1 + l
    }
}

/// The relative index `l` names an element of a stack of `n`.
pub open spec fn resolves(n: int, l: int) -> bool {
    0 <= locate(n, l) < n
}

/// Resolves the relative index `l` in a stack of `len` elements.
pub fn locate_idx(len: usize, l: i32) -> (r: usize)
    requires
        locate(len as int, l as int) >= 0,
    ensures
        r == locate(len as int, l as int),
{
    if l > 0 {
        l as usize
    } else {
        let back = (-(l as i64)) as usize;
        len - 1 - back
    }
}

/// Whether the relative index `l` names an element of a stack of `len`.
pub fn resolves_idx(len: usize, l: i32) -> (r: bool)
    ensures
        r == resolves(len as int, l as int),
{
    if l > 0 {
        (l as usize) < len
    } else {
        let back = (-(l as i64)) as usize;
        len > back
    }
}

/// The top of a stack resolves to its last element, the most negative
/// relative index to its first, and `1` to its second.
pub proof fn lemma_locate_ends(n: int)
    requires
        n >= 1,
    ensures
        locate(n, 0) == n - 1,
        locate(n, -(n - 1)) == 0,
        n >= 2 ==> locate(n, 1) == 1,
{
}

/// The views of a sequence of grids.
pub open spec fn grid_views(s: Seq<Layer2D>) -> Seq<Layer2DView> {
    s.map_values(|g: Layer2D| g@)
}

/// An ordered stack of grids; later elements are painted over earlier ones.
pub struct LayerArrangement {
    layer_stack: Vec<Layer2D>,
}

impl View for LayerArrangement {
    type V = Seq<Layer2DView>;

    closed spec fn view(&self) -> Seq<Layer2DView> {
        grid_views(self.layer_stack@)
    }
}

impl LayerArrangement {
    /// An empty stack.
    pub fn new() -> (r: LayerArrangement)
        ensures
            r@ == Seq::<Layer2DView>::empty(),
    {
        let r = LayerArrangement { layer_stack: Vec::new() };
        assert(r@ =~= Seq::<Layer2DView>::empty());
        r
    }

    /// The number of grids in the stack.
    pub fn len(&self) -> (r: usize)
        ensures
            r == self@.len(),
    {
        self.layer_stack.len()
    }

    /// The grid at absolute index `i`, counted from the bottom.
    pub fn at(&self, i: usize) -> (r: &Layer2D)
        requires
            i < self@.len(),
        ensures
            r@ == self@[i as int],
    {
        &self.layer_stack[i]
    }

    /// Puts `layer` on top of the stack and hands it back for editing.
    pub fn push(&mut self, layer: Layer2D) -> (r: &mut Layer2D)
        ensures
            r@ == layer@,
            final(self)@ == old(self)@.push(final(r)@),
    {
        let i = self.layer_stack.len();
        self.layer_stack.push(layer);
        proof {
            assert(grid_views(self.layer_stack@) =~= old(self)@.push(layer@));
        }
        &mut self.layer_stack[i]
    }

    /// Takes the top grid off the stack, if there is one.
    pub fn pop(&mut self) -> (r: Option<Layer2D>)
        ensures
            old(self)@.len() == 0 ==> r is None && final(self)@ == old(self)@,
            old(self)@.len() > 0 ==> r is Some && r->0@ == old(self)@.last() && final(self)@
                == old(self)@.drop_last(),
    {
        let r = self.layer_stack.pop();
        assert(self@ =~= old(self)@.drop_last() || old(self)@.len() == 0);
        r
    }

    /// Wraps `layer` in a one-cell grid at the layer's position, puts it on
    /// top, and hands back that cell for editing. The grid records the stack
    /// size before the push, negated, as its stack location.
    pub fn add_layer(&mut self, layer: Layer) -> (r: &mut Layer)
        requires
            old(self)@.len() <= i32::MAX,
        ensures
            r@ == grid_cell(layer@, 1, layer@.content.len(), 0),
            final(self)@ == old(self)@.push(
                Layer2DView {
                    posx: layer@.posx,
                    posy: layer@.posy,
                    length: 1,
                    height: 1,
                    cells: seq![final(r)@],
                    char_count: layer@.content.len(),
                    stack_loc: -old(self)@.len(),
                },
            ),
    {
        let loc = -(self.layer_stack.len() as i32);
        let mut grid = Layer2D::new(layer.posx, layer.posy, 1, 1, layer);
        grid.set_stack_loc(loc);
        let g = self.push(grid);
        assert(g@.cells.len() == 1);
        assert(forall|c: LayerView| #[trigger] g@.cells.update(0, c) =~= seq![c]);
        g.index(0, 0)
    }

    /// Puts `layer` on top, recording the stack size before the push, negated,
    /// as its stack location, and hands it back for editing.
    pub fn add_layer2d(&mut self, layer: Layer2D) -> (r: &mut Layer2D)
        requires
            old(self)@.len() <= i32::MAX,
        ensures
            r@ == (Layer2DView { stack_loc: -old(self)@.len(), ..layer@ }),
            final(self)@ == old(self)@.push(final(r)@),
    {
        let loc = -(self.layer_stack.len() as i32);
        let mut grid = layer;
        grid.set_stack_loc(loc);
        self.push(grid)
    }

    /// The top grid, painted last.
    pub fn layer_front(&self) -> (r: &Layer2D)
        requires
            self@.len() > 0,
        ensures
            r@ == self@.last(),
    {
        &self.layer_stack[self.layer_stack.len() - 1]
    }

    /// The bottom grid, painted first.
    pub fn layer_back(&self) -> (r: &Layer2D)
        requires
            self@.len() > 0,
        ensures
            r@ == self@[0],
    {
        &self.layer_stack[0]
    }

    /// The grid that the relative index `l` names (see [`locate`]).
    pub fn layer_locate(&self, l: i32) -> (r: &Layer2D)
        requires
            resolves(self@.len() as int, l as int),
        ensures
            r@ == self@[locate(self@.len() as int, l as int)],
    {
        &self.layer_stack[locate_idx(self.layer_stack.len(), l)]
    }

    /// Swaps the grids that the relative indices `a` and `b` name, which
    /// swaps their paint order.
    pub fn layer_swap(&mut self, a: i32, b: i32)
        requires
            resolves(old(self)@.len() as int, a as int),
            resolves(old(self)@.len() as int, b as int),
        ensures
            ({
                let n = old(self)@.len() as int;
                let i = locate(n, a as int);
                let j = locate(n, b as int);
                final(self)@ == old(self)@.update(i, old(self)@[j]).update(j, old(self)@[i])
            }),
    {
        let len = self.layer_stack.len();
        let i = locate_idx(len, a);
        let j = locate_idx(len, b);
        if i != j {
            let (lo, hi) = if i < j { (i, j) } else { (j, i) };
            let top = self.layer_stack.remove(hi);
            let bottom = self.layer_stack.remove(lo);
            self.layer_stack.insert(lo, top);
            self.layer_stack.insert(hi, bottom);
            proof {
                let s = old(self).layer_stack@;
                let t = s.update(lo as int, s[hi as int]).update(hi as int, s[lo as int]);
                assert(self.layer_stack@ =~= t);
                assert(grid_views(t) =~= old(self)@.update(i as int, old(self)@[j as int]).update(
                    j as int,
                    old(self)@[i as int],
                ));
            }
        } else {
            assert(old(self)@.update(i as int, old(self)@[j as int]).update(j as int, old(self)@[i as int]) =~= old(self)@);
        }
    }
}

} // verus!
