//! Painting layers as a list of terminal commands, and a model of what those
//! commands do to the screen.
use vstd::prelude::*;
use crate::arrangement::LayerArrangement;
use crate::layer::{Layer, Layer2D, Layer2DView, LayerView, layer_views};
use crate::text::spaces;

verus! {

/// One operation of the terminal driver.
#[derive(Debug, PartialEq, Eq)]
pub enum Command {
    /// Move the cursor to an absolute column and row.
    MoveTo(i32, i32),
    /// Move the cursor by a column and row offset.
    MoveBy(i32, i32),
    /// Move the cursor to the first column of its row.
    LineStart,
    /// Write text at the cursor, advancing it.
    Write(String),
    /// End the line: clear the rest of the row and go to the start of the next.
    Newline,
    /// Delete the character under the cursor; the rest of the row shifts left.
    Delete,
    /// Remember the cursor position.
    SaveCursor,
    /// Go back to the most recently remembered cursor position and forget it.
    RestoreCursor,
    /// Push what has been drawn to the physical screen.
    Flush,
}

/// A [`Command`] as a mathematical value.
pub ghost enum Cmd {
    MoveTo(int, int),
    MoveBy(int, int),
    LineStart,
    Write(Seq<char>),
    Newline,
    Delete,
    SaveCursor,
    RestoreCursor,
    Flush,
}

impl View for Command {
    type V = Cmd;

    open spec fn view(&self) -> Cmd {
        match self {
            Command::MoveTo(x, y) => Cmd::MoveTo(*x as int, *y as int),
            Command::MoveBy(x, y) => Cmd::MoveBy(*x as int, *y as int),
            Command::LineStart => Cmd::LineStart,
            Command::Write(s) => Cmd::Write(s@),
            Command::Newline => Cmd::Newline,
            Command::Delete => Cmd::Delete,
            Command::SaveCursor => Cmd::SaveCursor,
            Command::RestoreCursor => Cmd::RestoreCursor,
            Command::Flush => Cmd::Flush,
        }
    }
}

/// The views of a sequence of commands.
pub open spec fn cmds(s: Seq<Command>) -> Seq<Cmd> {
    s.map_values(|c: Command| c@)
}

/// The screen as the commands see it: the characters shown at each cell
/// (column, row), the cursor, and the remembered cursor positions.
pub ghost struct Screen {
    pub cells: Map<(int, int), char>,
    pub x: int,
    pub y: int,
    pub saved: Seq<(int, int)>,
}

/// `cells` with `s` written on row `y` from column `x` on.
pub open spec fn write_at(cells: Map<(int, int), char>, x: int, y: int, s: Seq<char>) -> Map<
    (int, int),
    char,
> {
    Map::new(
        |p: (int, int)| cells.contains_key(p) || (p.1 == y && x <= p.0 < x + s.len()),
        |p: (int, int)|
            if p.1 == y && x <= p.0 < x + s.len() {
                s[p.0 - x]
            } else {
                cells[p]
            },
    )
}

/// `cells` with the character at (`x`, `y`) removed and the rest of row `y`
/// shifted one column left.
pub open spec fn delete_at(cells: Map<(int, int), char>, x: int, y: int) -> Map<(int, int), char> {
    Map::new(
        |p: (int, int)|
            if p.1 == y && p.0 >= x {
                cells.contains_key((p.0 + 1, y))
            } else {
                cells.contains_key(p)
            },
        |p: (int, int)|
            if p.1 == y && p.0 >= x {
                cells[(p.0 + 1, y)]
            } else {
                cells[p]
            },
    )
}

/// `cells` with row `y` cleared from column `x` on.
pub open spec fn clear_from(cells: Map<(int, int), char>, x: int, y: int) -> Map<(int, int), char> {
    Map::new(|p: (int, int)| cells.contains_key(p) && !(p.1 == y && p.0 >= x), |p: (int, int)| cells[p])
}

/// The screen after one command.
pub open spec fn step(s: Screen, c: Cmd) -> Screen {
    match c {
        Cmd::MoveTo(x, y) => Screen { x, y, ..s },
        Cmd::MoveBy(dx, dy) => Screen { x: s.x + dx, y: s.y + dy, ..s },
        Cmd::LineStart => Screen { x: 0, ..s },
        Cmd::Write(t) => Screen { cells: write_at(s.cells, s.x, s.y, t), x: s.x + t.len(), ..s },
        Cmd::Newline => Screen { cells: clear_from(s.cells, s.x, s.y), x: 0, y: s.y + 1, ..s },
        Cmd::Delete => Screen { cells: delete_at(s.cells, s.x, s.y), ..s },
        Cmd::SaveCursor => Screen { saved: s.saved.push((s.x, s.y)), ..s },
        Cmd::RestoreCursor => if s.saved.len() == 0 {
            s
        } else {
            Screen { x: s.saved.last().0, y: s.saved.last().1, saved: s.saved.drop_last(), ..s }
        },
        Cmd::Flush => s,
    }
}

/// The screen after the commands `c`, in order.
pub open spec fn run(s: Screen, c: Seq<Cmd>) -> Screen
    decreases c.len(),
{
    if c.len() == 0 {
        s
    } else {
        step(run(s, c.drop_last()), c.last())
    }
}

/// `n` blanks.
pub open spec fn blanks(n: nat) -> Seq<char> {
    Seq::new(n, |i: int| ' ')
}

/// Painting a layer: go to its position, blank its whole allocated width
/// without moving, then write its content.
pub open spec fn layer_cmds(v: LayerView) -> Seq<Cmd> {
    seq![
        Cmd::MoveTo(v.posx, v.posy),
        Cmd::SaveCursor,
        Cmd::Write(blanks(v.width)),
        Cmd::RestoreCursor,
        Cmd::Write(v.content),
    ]
}

/// `c` wrapped so that the cursor ends where it started.
pub open spec fn keep_cursor(c: Seq<Cmd>) -> Seq<Cmd> {
    seq![Cmd::SaveCursor] + c + seq![Cmd::RestoreCursor]
}

/// Painting each of `cells` in turn, each without moving the cursor.
pub open spec fn cells_cmds(cells: Seq<LayerView>) -> Seq<Cmd>
    decreases cells.len(),
{
    if cells.len() == 0 {
        Seq::empty()
    } else {
        cells_cmds(cells.drop_last()) + keep_cursor(layer_cmds(cells.last()))
    }
}

/// Painting a grid: go to its origin, then paint every cell in order.
pub open spec fn grid_cmds(g: Layer2DView) -> Seq<Cmd> {
    seq![Cmd::MoveTo(g.posx, g.posy)] + cells_cmds(g.cells)
}

/// Painting each grid of a stack in turn, bottom first.
pub open spec fn stack_cmds(gs: Seq<Layer2DView>) -> Seq<Cmd>
    decreases gs.len(),
{
    if gs.len() == 0 {
        Seq::empty()
    } else {
        stack_cmds(gs.drop_last()) + grid_cmds(gs.last())
    }
}

/// Repainting a whole stack: flush, repaint every grid bottom first with the
/// cursor kept, flush again.
pub open spec fn refresh_cmds(gs: Seq<Layer2DView>) -> Seq<Cmd> {
    seq![Cmd::Flush] + keep_cursor(stack_cmds(gs)) + seq![Cmd::Flush]
}

/// Appends `c` to `out`.
pub(crate) fn emit(out: &mut Vec<Command>, c: Command)
    ensures
        cmds(final(out)@) == cmds(old(out)@).push(c@),
{
    out.push(c);
    assert(cmds(out@) =~= cmds(old(out)@).push(c@));
}

/// Appends the commands that paint `layer` to `out`.
fn emit_layer(out: &mut Vec<Command>, layer: &Layer)
    ensures
        cmds(final(out)@) == cmds(old(out)@) + layer_cmds(layer@),
{
    emit(out, Command::MoveTo(layer.posx, layer.posy));
    emit(out, Command::SaveCursor);
    emit(out, Command::Write(spaces(layer.length)));
    emit(out, Command::RestoreCursor);
    emit(out, Command::Write(layer.get_content()));
    assert(cmds(out@) =~= cmds(old(out)@) + layer_cmds(layer@));
}

/// The commands that paint `layer`: move to its position, blank its allocated
/// width, write its content. The cursor ends after the content.
pub fn draw_layer(layer: &Layer) -> (r: Vec<Command>)
    ensures
        cmds(r@) == layer_cmds(layer@),
{
    let mut out: Vec<Command> = Vec::new();
    emit_layer(&mut out, layer);
    assert(cmds(out@) =~= layer_cmds(layer@));
    out
}

/// The commands that paint `layer` and put the cursor back where it was.
pub fn draw_layer_static(layer: &Layer) -> (r: Vec<Command>)
    ensures
        cmds(r@) == keep_cursor(layer_cmds(layer@)),
{
    let mut out: Vec<Command> = Vec::new();
    emit(&mut out, Command::SaveCursor);
    emit_layer(&mut out, layer);
    emit(&mut out, Command::RestoreCursor);
    assert(cmds(out@) =~= keep_cursor(layer_cmds(layer@)));
    out
}

/// Appends the commands that paint each of `cells` in turn, each with the
/// cursor kept, to `out`.
pub(crate) fn emit_cells(out: &mut Vec<Command>, cells: &Vec<Layer>)
    ensures
        cmds(final(out)@) == cmds(old(out)@) + cells_cmds(layer_views(cells@)),
{
    let ghost start = cmds(out@);
    let ghost views = layer_views(cells@);
    let n = cells.len();
    let mut i: usize = 0;
    while i < n
        invariant
            i <= n,
            n == views.len(),
            views == layer_views(cells@),
            cmds(out@) == start + cells_cmds(views.take(i as int)),
        decreases n - i,
    {
        let ghost before = cmds(out@);
        emit(out, Command::SaveCursor);
        emit_layer(out, &cells[i]);
        emit(out, Command::RestoreCursor);
        proof {
            let cs = views.take(i + 1);
            assert(cs.drop_last() =~= views.take(i as int));
            assert(cs.last() == views[i as int]);
            assert(cmds(out@) =~= before + keep_cursor(layer_cmds(views[i as int])));
        }
        i = i + 1;
    }
    assert(views.take(n as int) =~= views);
}

/// Appends the commands that paint `grid` to `out`.
fn emit_grid(out: &mut Vec<Command>, grid: &Layer2D)
    ensures
        cmds(final(out)@) == cmds(old(out)@) + grid_cmds(grid@),
{
    emit(out, Command::MoveTo(grid.posx, grid.posy));
    emit_cells(out, &grid.layers);
    assert(cmds(out@) =~= cmds(old(out)@) + grid_cmds(grid@));
}

/// The commands that paint `grid`: move to its origin, then paint every cell
/// in order, each with the cursor kept.
pub fn draw_layer2d(grid: &Layer2D) -> (r: Vec<Command>)
    ensures
        cmds(r@) == grid_cmds(grid@),
{
    let mut out: Vec<Command> = Vec::new();
    emit_grid(&mut out, grid);
    assert(cmds(out@) =~= grid_cmds(grid@));
    out
}

/// The commands that paint every cell of `grid` and put the cursor back
/// where it was.
pub fn draw_layer2d_static(grid: &Layer2D) -> (r: Vec<Command>)
    ensures
        cmds(r@) == keep_cursor(grid_cmds(grid@)),
{
    let mut out: Vec<Command> = Vec::new();
    emit(&mut out, Command::SaveCursor);
    emit_grid(&mut out, grid);
    emit(&mut out, Command::RestoreCursor);
    assert(cmds(out@) =~= keep_cursor(grid_cmds(grid@)));
    out
}

/// Appends the commands that repaint the whole stack to `out`.
fn emit_refresh(out: &mut Vec<Command>, layers: &LayerArrangement)
    ensures
        cmds(final(out)@) == cmds(old(out)@) + refresh_cmds(layers@),
{
    emit(out, Command::Flush);
    emit(out, Command::SaveCursor);
    let ghost start = cmds(out@);
    let n = layers.len();
    let mut i: usize = 0;
    while i < n
        invariant
            i <= n,
            n == layers@.len(),
            cmds(out@) == start + stack_cmds(layers@.take(i as int)),
        decreases n - i,
    {
        let ghost before = cmds(out@);
        emit_grid(out, layers.at(i));
        proof {
            let gs = layers@.take(i + 1);
            assert(gs.drop_last() =~= layers@.take(i as int));
            assert(cmds(out@) =~= before + grid_cmds(layers@[i as int]));
        }
        i = i + 1;
    }
    assert(layers@.take(n as int) =~= layers@);
    emit(out, Command::RestoreCursor);
    emit(out, Command::Flush);
    assert(cmds(out@) =~= cmds(old(out)@) + refresh_cmds(layers@));
}

/// The commands that repaint every grid of the stack, bottom first, with the
/// cursor kept, between two flushes.
pub fn refresh(layers: &LayerArrangement) -> (r: Vec<Command>)
    ensures
        cmds(r@) == refresh_cmds(layers@),
{
    let mut out: Vec<Command> = Vec::new();
    emit_refresh(&mut out, layers);
    assert(cmds(out@) =~= refresh_cmds(layers@));
    out
}

/// What painting a layer does to any screen: its allocated width is blanked,
/// its content written over the start of it, and the cursor left after the
/// content; the remembered positions are as before.
pub proof fn lemma_draw_layer_effect(s: Screen, v: LayerView)
    ensures
        run(s, layer_cmds(v)) == (Screen {
            cells: write_at(
                write_at(s.cells, v.posx, v.posy, blanks(v.width)),
                v.posx,
                v.posy,
                v.content,
            ),
            x: v.posx + v.content.len(),
            y: v.posy,
            saved: s.saved,
        }),
{
    let c = layer_cmds(v);
    assert(c.take(1).drop_last() =~= Seq::<Cmd>::empty());
    assert(c.take(2).drop_last() =~= c.take(1));
    assert(c.take(3).drop_last() =~= c.take(2));
    assert(c.take(4).drop_last() =~= c.take(3));
    assert(c.drop_last() =~= c.take(4));
    let s1 = step(s, Cmd::MoveTo(v.posx, v.posy));
    assert(run(s, Seq::<Cmd>::empty()) == s);
    assert(run(s, c.take(1)) == s1);
    let s2 = step(s1, Cmd::SaveCursor);
    assert(run(s, c.take(2)) == s2);
    let s3 = step(s2, Cmd::Write(blanks(v.width)));
    assert(run(s, c.take(3)) == s3);
    let s4 = step(s3, Cmd::RestoreCursor);
    assert(run(s, c.take(4)) == s4);
    assert(s3.saved.drop_last() =~= s.saved);
    assert(run(s, c) == step(s4, Cmd::Write(v.content)));
}

/// Painting a layer twice in a row leaves the screen exactly as painting it
/// once: the clear-then-write sequence depends only on the layer.
pub proof fn lemma_draw_layer_idempotent(s: Screen, v: LayerView)
    ensures
        run(run(s, layer_cmds(v)), layer_cmds(v)) == run(s, layer_cmds(v)),
{
    let s1 = run(s, layer_cmds(v));
    lemma_draw_layer_effect(s, v);
    lemma_draw_layer_effect(s1, v);
    let b = blanks(v.width);
    let once = write_at(write_at(s.cells, v.posx, v.posy, b), v.posx, v.posy, v.content);
    let twice = write_at(write_at(once, v.posx, v.posy, b), v.posx, v.posy, v.content);
    assert(twice =~= once);
}

/// The commands that write `s` at the cursor and repaint the stack.
pub fn out(layers: &LayerArrangement, s: String) -> (r: Vec<Command>)
    ensures
        cmds(r@) == seq![Cmd::Write(s@)] + refresh_cmds(layers@),
{
    let mut o: Vec<Command> = Vec::new();
    emit(&mut o, Command::Write(s));
    emit_refresh(&mut o, layers);
    o
}

/// The commands of [`out`], with the cursor put back where it was.
pub fn out_static(layers: &LayerArrangement, s: String) -> (r: Vec<Command>)
    ensures
        cmds(r@) == keep_cursor(seq![Cmd::Write(s@)] + refresh_cmds(layers@)),
{
    let ghost t = s@;
    let mut o: Vec<Command> = Vec::new();
    emit(&mut o, Command::SaveCursor);
    emit(&mut o, Command::Write(s));
    emit_refresh(&mut o, layers);
    emit(&mut o, Command::RestoreCursor);
    assert(cmds(o@) =~= keep_cursor(seq![Cmd::Write(t)] + refresh_cmds(layers@)));
    o
}

/// The commands that end the line and repaint the stack.
pub fn outbr(layers: &LayerArrangement) -> (r: Vec<Command>)
    ensures
        cmds(r@) == seq![Cmd::Newline] + refresh_cmds(layers@),
{
    let mut o: Vec<Command> = Vec::new();
    emit(&mut o, Command::Newline);
    emit_refresh(&mut o, layers);
    o
}

/// The commands that write `s`, end the line and repaint the stack.
pub fn outln(layers: &LayerArrangement, s: String) -> (r: Vec<Command>)
    ensures
        cmds(r@) == seq![Cmd::Write(s@), Cmd::Newline] + refresh_cmds(layers@),
{
    let ghost t = s@;
    let mut o: Vec<Command> = Vec::new();
    emit(&mut o, Command::Write(s));
    emit(&mut o, Command::Newline);
    emit_refresh(&mut o, layers);
    assert(cmds(o@) =~= seq![Cmd::Write(t), Cmd::Newline] + refresh_cmds(layers@));
    o
}

/// The commands that write `s` at the cursor and leave the cursor where it
/// was.
pub fn raw_out_static(s: String) -> (r: Vec<Command>)
    ensures
        cmds(r@) == keep_cursor(seq![Cmd::Write(s@)]),
{
    let ghost t = s@;
    let mut o: Vec<Command> = Vec::new();
    emit(&mut o, Command::SaveCursor);
    emit(&mut o, Command::Write(s));
    emit(&mut o, Command::RestoreCursor);
    assert(cmds(o@) =~= keep_cursor(seq![Cmd::Write(t)]));
    o
}

/// The commands that write `s` and end the line.
pub fn raw_outln(s: String) -> (r: Vec<Command>)
    ensures
        cmds(r@) == seq![Cmd::Write(s@), Cmd::Newline],
{
    let ghost t = s@;
    let mut o: Vec<Command> = Vec::new();
    emit(&mut o, Command::Write(s));
    emit(&mut o, Command::Newline);
    assert(cmds(o@) =~= seq![Cmd::Write(t), Cmd::Newline]);
    o
}

} // verus!
