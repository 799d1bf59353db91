//! Scroll commands and how they move the page window.
//!
//! A consumed `Up` moves the first displayed line up by a fixed step,
//! clamped at the top of the document; a consumed `Down` moves it down by
//! exactly that step, with no clamp at the bottom — scrolling past the end
//! merely yields a page with fewer (possibly zero) visible lines.

use vstd::prelude::*;

verus! {

/// Lines the window moves per consumed scroll command.
pub const LINES_PER_SCROLL: u32 = 5;

/// A scroll command, produced by input and consumed by the render loop.
#[derive(Clone, Copy, PartialEq, Eq, Structural, Debug)]
pub enum ScrollCommand {
    Up,
    Down,
}

/// The first displayed line after one consumed command: `Up` steps back by
/// `LINES_PER_SCROLL` and clamps at zero, `Down` steps forward by exactly
/// `LINES_PER_SCROLL`.
pub open spec fn spec_apply_scroll(start_line: int, cmd: ScrollCommand) -> int {
    match cmd {
        ScrollCommand::Up => if start_line - LINES_PER_SCROLL >= 0 {
            start_line - LINES_PER_SCROLL
        } else {
            0
        },
        ScrollCommand::Down => start_line + LINES_PER_SCROLL,
    }
}

/// Apply one consumed scroll command to the first displayed line.
pub fn apply_scroll(start_line: u32, cmd: ScrollCommand) -> (r: u32)
    requires
        cmd is Down ==> start_line + LINES_PER_SCROLL <= u32::MAX,
    ensures
        r == spec_apply_scroll(start_line as int, cmd),
{
    match cmd {
        ScrollCommand::Up => {
            if start_line >= LINES_PER_SCROLL {
                start_line - LINES_PER_SCROLL
            } else {
                0
            }
        },
        ScrollCommand::Down => start_line + LINES_PER_SCROLL,
    }
}

/// The window position after a whole sequence of consumed commands, applied
/// left to right.
pub open spec fn spec_apply_all(start_line: int, cmds: Seq<ScrollCommand>) -> int
    decreases cmds.len(),
{
    if cmds.len() == 0 {
        start_line
    } else {
        spec_apply_all(spec_apply_scroll(start_line, cmds[0]), cmds.drop_first())
    }
}

/// The window never leaves the document at the top: from a non-negative
/// start, no sequence of consumed commands — in particular no run of `Up`
/// commands — drives the first displayed line below zero.
pub proof fn lemma_start_line_never_negative(start_line: int, cmds: Seq<ScrollCommand>)
    requires
        start_line >= 0,
    ensures
        spec_apply_all(start_line, cmds) >= 0,
    decreases cmds.len(),
{
    if cmds.len() > 0 {
        lemma_start_line_never_negative(spec_apply_scroll(start_line, cmds[0]), cmds.drop_first());
    }
}

} // verus!
