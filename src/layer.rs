use vstd::prelude::*;
use crate::text::char_len;

verus! {

/// The allocated width after showing `s` in a region that had width `w`:
/// the footprint only ever grows.
pub open spec fn grown_width(w: nat, s: Seq<char>) -> nat {
    if s.len() > w {
        s.len()
    } else {
        w
    }
}

/// The allocated width after showing each of `ss` in turn, starting from
/// width `w`.
pub open spec fn width_after(w: nat, ss: Seq<Seq<char>>) -> nat
    decreases ss.len(),
{
    if ss.len() == 0 {
        w
    } else {
        grown_width(width_after(w, ss.drop_last()), ss.last())
    }
}

/// Showing contents one after another never narrows a layer, and after each
/// one the layer is at least as wide as that content.
pub proof fn lemma_width_high_water(w: nat, ss: Seq<Seq<char>>, i: int, j: int)
    requires
        0 <= i <= j <= ss.len(),
    ensures
        width_after(w, ss.take(i)) <= width_after(w, ss.take(j)),
        j > 0 ==> width_after(w, ss.take(j)) >= ss[j - 1].len(),
    decreases j - i,
{
    if j > 0 {
        assert(ss.take(j).drop_last() =~= ss.take(j - 1));
    }
    if i < j {
        lemma_width_high_water(w, ss, i, j - 1);
    }
}

/// A layer's view after [`Layer::shrink`]: the width is the content's length.
pub open spec fn shrunk(v: LayerView) -> LayerView {
    LayerView { width: v.content.len(), ..v }
}

/// After a shrink the allocated width is exactly the length of the content,
/// which the shrink leaves as it was.
pub proof fn lemma_shrink_exact(v: LayerView)
    ensures
        shrunk(v).width == shrunk(v).content.len(),
        shrunk(v).content == v.content,
{
}

/// What a [`Layer`] holds, as mathematical values.
pub ghost struct LayerView {
    pub posx: int,
    pub posy: int,
    pub inner: Seq<char>,
    pub content: Seq<char>,
    pub width: nat,
}

impl LayerView {
    /// The displayed text fits in the allocated width.
    pub open spec fn fits(self) -> bool {
        self.content.len() <= self.width
    }
}

/// A positioned, single-line text region.
///
/// Besides the displayed `content` a layer keeps an allocated width, the
/// longest content it has shown since it was last shrunk, so that a redraw can
/// blank whatever an earlier, longer content left on screen.
#[derive(Debug)]
pub struct Layer {
    pub posx: i32,
    pub posy: i32,
    pub inner_content: String,
    pub(crate) content: String,
    pub(crate) length: usize,
}

impl View for Layer {
    type V = LayerView;

    open(crate) spec fn view(&self) -> LayerView {
        LayerView {
            posx: self.posx as int,
            posy: self.posy as int,
            inner: self.inner_content@,
            content: self.content@,
            width: self.length as nat,
        }
    }
}

impl Clone for Layer {
    fn clone(&self) -> (r: Layer)
        ensures
            r@ == self@,
    {
        proof {
            use_type_invariant(self);
        }
        Layer {
            posx: self.posx,
            posy: self.posy,
            inner_content: self.inner_content.clone(),
            content: self.content.clone(),
            length: self.length,
        }
    }
}

impl Layer {
    /// Holds of every layer: the displayed text fits in its allocated width.
    #[verifier::type_invariant]
    pub open spec fn inv(&self) -> bool {
        self@.fits()
    }

    /// The view of an empty layer at `posx`, `posy`.
    pub open spec fn new_view(posx: i32, posy: i32) -> LayerView {
        LayerView {
            posx: posx as int,
            posy: posy as int,
            inner: Seq::empty(),
            content: Seq::empty(),
            width: 0,
        }
    }

    /// An empty layer at `posx`, `posy`.
    pub fn new(posx: i32, posy: i32) -> (r: Layer)
        ensures
            r@ == Layer::new_view(posx, posy),
    {
        Layer { posx, posy, content: String::new(), inner_content: String::new(), length: 0 }
    }

    /// A copy of the displayed text.
    pub fn get_content(&self) -> (r: String)
        ensures
            r@ == self@.content,
    {
        self.content.clone()
    }

    /// Shows `c`, growing the allocated width to fit it; the width never
    /// shrinks here.
    pub fn set_content(&mut self, c: String) -> (r: &mut Layer)
        ensures
            r@ == (LayerView {
                content: c@,
                width: grown_width(old(self)@.width, c@),
                ..old(self)@
            }),
            *final(self) == *final(r),
    {
        proof {
            use_type_invariant(&*self);
        }
        let n = char_len(&c);
        if n > self.length {
            self.length = n;
        }
        self.content = c;
        self
    }

    /// Shows the hidden `inner_content`, under the same growth rule as
    /// [`Layer::set_content`].
    pub fn inner_to_outer(&mut self)
        ensures
            final(self)@ == (LayerView {
                content: old(self)@.inner,
                width: grown_width(old(self)@.width, old(self)@.inner),
                ..old(self)@
            }),
    {
        let inner = self.inner_content.clone();
        self.set_content(inner);
    }

    /// The allocated width, in characters.
    pub fn length(&self) -> (r: usize)
        ensures
            r == self@.width,
    {
        self.length
    }

    /// Drops the padding history: the allocated width becomes the length of
    /// the displayed text.
    pub fn shrink(&mut self)
        ensures
            final(self)@ == shrunk(old(self)@),
    {
        self.length = char_len(&self.content);
    }
}

} // verus!

verus! {

/// What a [`Layer2D`] holds, as mathematical values.
pub ghost struct Layer2DView {
    pub posx: int,
    pub posy: int,
    pub length: nat,
    pub height: nat,
    pub cells: Seq<LayerView>,
    pub char_count: nat,
    pub stack_loc: int,
}

/// The cell at index `i` of a grid `length` columns wide whose cells are copies
/// of `p`, each `pitch` columns wide: cells are packed left to right, then top
/// to bottom, one row apart.
pub open spec fn grid_cell(p: LayerView, length: nat, pitch: nat, i: int) -> LayerView {
    LayerView { posx: (i % length as int) * pitch, posy: i / length as int, ..p }
}

/// The cells of a `length` by `height` grid filled from `p`.
pub open spec fn grid_cells(p: LayerView, length: nat, height: nat) -> Seq<LayerView> {
    Seq::new(length * height, |i: int| grid_cell(p, length, p.content.len(), i))
}

/// Every cell of a `length` by `height` grid with the given horizontal pitch
/// has coordinates that fit in an `i32`, and the cell count fits in a `usize`.
pub open spec fn grid_addressable(length: nat, height: nat, pitch: nat) -> bool {
    &&& length * height <= usize::MAX
    &&& length * height > 0 ==> {
        &&& (length - 1) * pitch <= i32::MAX
        &&& height - 1 <= i32::MAX
    }
}

/// The views of a sequence of layers.
pub open spec fn layer_views(s: Seq<Layer>) -> Seq<LayerView> {
    s.map_values(|l: Layer| l@)
}

/// Replacing one layer replaces its view.
pub broadcast proof fn lemma_layer_views_update(s: Seq<Layer>, i: int, v: Layer)
    requires
        0 <= i < s.len(),
    ensures
        #[trigger] layer_views(s.update(i, v)) == layer_views(s).update(i, v@),
{
    assert(layer_views(s.update(i, v)) =~= layer_views(s).update(i, v@));
}

/// A rectangular grid of layers generated from one template layer.
#[derive(Clone, Debug)]
pub struct Layer2D {
    pub posx: i32,
    pub posy: i32,
    pub length: usize,
    pub height: usize,
    pub layers: Vec<Layer>,
    pub(crate) char_count: usize,
    pub(crate) stack_loc: i32,
}

impl View for Layer2D {
    type V = Layer2DView;

    open(crate) spec fn view(&self) -> Layer2DView {
        Layer2DView {
            posx: self.posx as int,
            posy: self.posy as int,
            length: self.length as nat,
            height: self.height as nat,
            cells: layer_views(self.layers@),
            char_count: self.char_count as nat,
            stack_loc: self.stack_loc as int,
        }
    }
}

impl Layer2D {
    /// A `length` by `height` grid at `posx`, `posy`, each cell a copy of
    /// `populator` (see [`Layer2D::populate`]).
    pub fn new(posx: i32, posy: i32, length: usize, height: usize, populator: Layer) -> (r: Layer2D)
        requires
            grid_addressable(length as nat, height as nat, populator@.content.len()),
        ensures
            r@ == (Layer2DView {
                posx: posx as int,
                posy: posy as int,
                length: length as nat,
                height: height as nat,
                cells: grid_cells(populator@, length as nat, height as nat),
                char_count: populator@.content.len(),
                stack_loc: 0,
            }),
    {
        let mut l = Layer2D {
            posx,
            posy,
            length,
            height,
            layers: Vec::new(),
            char_count: 0,
            stack_loc: 0,
        };
        l.populate(populator);
        l
    }

    /// Replaces every cell with a copy of `populator`. The horizontal pitch
    /// becomes the populator's content length; cell `i` is placed at column
    /// `(i % length) * pitch` and row `i / length`.
    pub fn populate(&mut self, populator: Layer)
        requires
            grid_addressable(
                old(self)@.length,
                old(self)@.height,
                populator@.content.len(),
            ),
        ensures
            final(self)@ == (Layer2DView {
                cells: grid_cells(populator@, old(self)@.length, old(self)@.height),
                char_count: populator@.content.len(),
                ..old(self)@
            }),
    {
        let pitch = char_len(&populator.content);
        let n = self.length * self.height;
        let ghost pv = populator@;
        let mut cells: Vec<Layer> = Vec::new();
        let mut i: usize = 0;
        while i < n
            invariant
                i <= n,
                n == self.length * self.height,
                pitch == pv.content.len(),
                pv == populator@,
                grid_addressable(self.length as nat, self.height as nat, pitch as nat),
                cells@.len() == i,
                forall|k: int|
                    0 <= k < i ==> #[trigger] cells@[k]@ == grid_cell(
                        pv,
                        self.length as nat,
                        pitch as nat,
                        k,
                    ),
            decreases n - i,
        {
            let col = i % self.length;
            let row = i / self.length;
            proof {
                let len = self.length as int;
                let h = self.height as int;
                let c = col as int;
                let r = row as int;
                let k = i as int;
                let p = pitch as int;
                assert(c < len);
                assert(c * p <= (len - 1) * p) by (nonlinear_arith)
                    requires c < len, p >= 0;
                assert(r < h) by (nonlinear_arith)
                    requires r == k / len, k < len * h, len > 0, k >= 0;
            }
            let mut cell = populator.clone();
            proof {
                use_type_invariant(&cell);
            }
            cell.posx = (col * pitch) as i32;
            cell.posy = row as i32;
            cells.push(cell);
            i = i + 1;
        }
        self.char_count = pitch;
        self.layers = cells;
        assert(layer_views(self.layers@) =~= grid_cells(
            pv,
            self.length as nat,
            self.height as nat,
        ));
    }

    /// The horizontal pitch of the cells: the populator's content length.
    pub fn char_count(&self) -> (r: usize)
        ensures
            r == self@.char_count,
    {
        self.char_count
    }

    /// The grid's place in a layer stack: the stack size when it was pushed,
    /// negated.
    pub fn stack_loc(&self) -> (r: i32)
        ensures
            r == self@.stack_loc,
    {
        self.stack_loc
    }

    /// Records the grid's place in a layer stack.
    pub(crate) fn set_stack_loc(&mut self, loc: i32)
        ensures
            final(self)@ == (Layer2DView { stack_loc: loc as int, ..old(self)@ }),
    {
        self.stack_loc = loc;
    }

    /// The cell at column `x`, row `y`, for in-place editing.
    pub fn index(&mut self, x: usize, y: usize) -> (r: &mut Layer)
        requires
            x + y * old(self)@.length < old(self)@.cells.len(),
        ensures
            r@ == old(self)@.cells[x + y * old(self)@.length],
            final(self)@ == (Layer2DView {
                cells: old(self)@.cells.update(x + y * old(self)@.length, final(r)@),
                ..old(self)@
            }),
    {
        broadcast use lemma_layer_views_update;
        let n = self.layers.len();
        assert(y * self.length <= x + y * self.length < n);
        let i = x + y * self.length;
        &mut self.layers[i]
    }

    /// The cell at column `x`, row `y`.
    pub fn get(&self, x: usize, y: usize) -> (r: &Layer)
        requires
            x + y * self@.length < self@.cells.len(),
        ensures
            r@ == self@.cells[x + y * self@.length],
    {
        let n = self.layers.len();
        assert(y * self.length <= x + y * self.length < n);
        &self.layers[x + y * self.length]
    }
}

} // verus!
