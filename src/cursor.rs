//! Deleting runs of characters by walking the cursor.
use vstd::prelude::*;
use crate::render::{Cmd, Command, cmds, emit};

verus! {

/// `unit` repeated `n` times.
pub open spec fn repeat_cmds(n: nat, unit: Seq<Cmd>) -> Seq<Cmd>
    decreases n,
{
    if n == 0 {
        Seq::empty()
    } else {
        repeat_cmds((n - 1) as nat, unit) + unit
    }
}

/// One step of a deleting walk: move one column in direction `dir`, then
/// delete the character there.
pub open spec fn delete_step(dir: int) -> Seq<Cmd> {
    seq![Cmd::MoveBy(dir, 0), Cmd::Delete]
}

/// Appends `n` deleting steps in direction `dir` to `out`.
fn emit_delete_walk(out: &mut Vec<Command>, n: u64, dir: i32)
    ensures
        cmds(final(out)@) == cmds(old(out)@) + repeat_cmds(n as nat, delete_step(dir as int)),
{
    let ghost start = cmds(out@);
    let mut i: u64 = 0;
    while i < n
        invariant
            i <= n,
            cmds(out@) == start + repeat_cmds(i as nat, delete_step(dir as int)),
        decreases n - i,
    {
        emit(out, Command::MoveBy(dir, 0));
        emit(out, Command::Delete);
        i = i + 1;
        assert(cmds(out@) =~= start + repeat_cmds(i as nat, delete_step(dir as int)));
    }
}

/// The commands that move back one column and delete the character there.
pub fn delete_prev() -> (r: Vec<Command>)
    ensures
        cmds(r@) == delete_step(-1),
{
    let mut out: Vec<Command> = Vec::new();
    emit(&mut out, Command::MoveBy(-1, 0));
    emit(&mut out, Command::Delete);
    assert(cmds(out@) =~= delete_step(-1));
    out
}

/// The commands that delete while walking `xoffs` columns from the cursor,
/// one column at a time in the direction of its sign.
pub fn delete_offset(xoffs: i32) -> (r: Vec<Command>)
    requires
        xoffs != 0,
    ensures
        cmds(r@) == repeat_cmds(
            (if xoffs > 0 { xoffs as int } else { -xoffs }) as nat,
            delete_step(if xoffs > 0 { 1 } else { -1 }),
        ),
{
    let mut out: Vec<Command> = Vec::new();
    let (n, dir): (u64, i32) = if xoffs > 0 {
        (xoffs as u64, 1)
    } else {
        ((-(xoffs as i64)) as u64, -1)
    };
    emit_delete_walk(&mut out, n, dir);
    assert(cmds(out@) =~= repeat_cmds(n as nat, delete_step(dir as int)));
    out
}

/// The commands that delete while walking from column `from_x` to column
/// `x`, one column at a time; none when the two are equal.
pub fn delete_to(from_x: i32, x: i32) -> (r: Vec<Command>)
    ensures
        cmds(r@) == repeat_cmds(
            (if x > from_x { x - from_x } else { from_x - x }) as nat,
            delete_step(if x > from_x { 1 } else { -1 }),
        ),
{
    let mut out: Vec<Command> = Vec::new();
    let (n, dir): (u64, i32) = if x > from_x {
        ((x as i64 - from_x as i64) as u64, 1)
    } else {
        ((from_x as i64 - x as i64) as u64, -1)
    };
    emit_delete_walk(&mut out, n, dir);
    assert(cmds(out@) =~= repeat_cmds(n as nat, delete_step(dir as int)));
    out
}

/// The commands that erase the first `chars` columns of the cursor's row:
/// go to the start of the row, walk `chars` columns right, then delete while
/// walking back to the first column.
pub fn delete_from(chars: usize) -> (r: Vec<Command>)
    requires
        chars <= i32::MAX,
    ensures
        cmds(r@) == seq![Cmd::LineStart, Cmd::MoveBy(chars as int, 0)] + repeat_cmds(
            chars as nat,
            delete_step(-1),
        ),
{
    let mut out: Vec<Command> = Vec::new();
    emit(&mut out, Command::LineStart);
    emit(&mut out, Command::MoveBy(chars as i32, 0));
    let ghost head = cmds(out@);
    emit_delete_walk(&mut out, chars as u64, -1);
    assert(head =~= seq![Cmd::LineStart, Cmd::MoveBy(chars as int, 0)]);
    out
}

} // verus!
