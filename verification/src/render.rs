//! The pagination / render engine.
//!
//! A single forward pass over the instruction stream produces a bounded
//! page: at most `viewport_capacity` visible rows, each drawn line carrying
//! the style active at its instruction. Lines before `start_line` are
//! skipped without stopping the traversal, and style instructions are
//! applied even while lines are being skipped, so the style state is
//! correct by the time the visible window begins. The pass stops at `Stop`,
//! at the end of the stream, or as soon as the viewport is full. No
//! intermediate per-document line list is built: each scroll step re-walks
//! the stream.
//!
//! Two interpreter details mirror the running system deliberately:
//! a `Text` line is visible once its line number reaches `start_line + 1`,
//! while an `Endl` consumes a row already at `start_line` — the thresholds
//! differ by one; and a `Pop` with no matching `Push` leaves the style
//! counter at zero instead of underflowing it.

use vstd::prelude::*;

use crate::program::Instruction;
use crate::program::Program;
use crate::program::StyleVar;
use crate::style::StyleVarStack;

verus! {

/// The mathematical image of one drawn line: its bytes, whether it is
/// bold, and the viewport row (0-based) it occupies.
pub ghost struct LineSpec {
    pub text: Seq<u8>,
    pub bold: bool,
    pub row: int,
}

/// One drawn line of a rendered page.
pub struct RenderedLine {
    /// The bytes of the text slice this line draws.
    pub text: Vec<u8>,
    /// Whether the bold attribute was active when the line was drawn.
    pub bold: bool,
    /// The viewport row the line occupies, counted from the top.
    pub row: u32,
}

impl View for RenderedLine {
    type V = LineSpec;

    open spec fn view(&self) -> LineSpec {
        LineSpec { text: self.text@, bold: self.bold, row: self.row as int }
    }
}

/// The drawn lines of a sequence of rendered lines, as their mathematical
/// images.
pub open spec fn lines_view(lines: Seq<RenderedLine>) -> Seq<LineSpec> {
    lines.map_values(|l: RenderedLine| l@)
}

/// A rendered page: the drawn lines of one render pass, in drawing order.
pub struct Page {
    pub lines: Vec<RenderedLine>,
}

impl View for Page {
    type V = Seq<LineSpec>;

    open spec fn view(&self) -> Seq<LineSpec> {
        lines_view(self.lines@)
    }
}

/// Witness that the engine signalled one redraw request: the fire-and-forget
/// trigger handed to the display-flush collaborator after a pass. One value
/// stands for exactly one signal.
pub struct RedrawRequest;

/// The lines drawn by the rest of a render pass, starting at instruction
/// `i` with `cur_line` logical lines already counted, `remaining` viewport
/// rows still free, `depth` outstanding bold pushes, and `row` the next
/// free viewport row.
pub open spec fn spec_render_from(
    code: Seq<Instruction>,
    text: Seq<u8>,
    i: int,
    cur_line: int,
    remaining: int,
    depth: nat,
    start_line: int,
    row: int,
) -> Seq<LineSpec>
    decreases code.len() - i,
{
    if i < 0 || i >= code.len() || remaining <= 0 {
        Seq::empty()
    } else {
        match code[i] {
            Instruction::Text(a) => {
                let line = cur_line + 1;
                if line < start_line + 1 {
                    spec_render_from(code, text, i + 1, line, remaining, depth, start_line, row)
                } else {
                    seq![
                        LineSpec {
                            text: text.subrange(a.offset as int, a.offset + a.len),
                            bold: depth > 0,
                            row: row,
                        },
                    ] + spec_render_from(
                        code,
                        text,
                        i + 1,
                        line,
                        remaining - 1,
                        depth,
                        start_line,
                        row + 1,
                    )
                }
            },
            Instruction::Push(StyleVar::Bold) => spec_render_from(
                code,
                text,
                i + 1,
                cur_line,
                remaining,
                depth + 1,
                start_line,
                row,
            ),
            Instruction::Pop(StyleVar::Bold) => spec_render_from(
                code,
                text,
                i + 1,
                cur_line,
                remaining,
                if depth > 0 {
                    (depth - 1) as nat
                } else {
                    0
                },
                start_line,
                row,
            ),
            Instruction::Endl => {
                let line = cur_line + 1;
                if line < start_line {
                    spec_render_from(code, text, i + 1, line, remaining, depth, start_line, row)
                } else {
                    spec_render_from(
                        code,
                        text,
                        i + 1,
                        line,
                        remaining - 1,
                        depth,
                        start_line,
                        row + 1,
                    )
                }
            },
            Instruction::Stop => Seq::empty(),
        }
    }
}

/// The page one render pass draws: the whole stream interpreted from the
/// beginning with an empty style stack and a full viewport.
pub open spec fn spec_render_page(
    code: Seq<Instruction>,
    text: Seq<u8>,
    start_line: int,
    capacity: int,
) -> Seq<LineSpec> {
    spec_render_from(code, text, 0, 0, capacity, 0, start_line, 0)
}

/// One render pass: interpret the program and produce the page visible in a
/// window of `capacity` rows starting at logical line `start_line`. The
/// pass always terminates and never draws more than `capacity` lines.
pub fn render_pass(p: &Program, start_line: u32, capacity: u32) -> (page: Page)
    requires
        p.wf(),
    ensures
        page@ == spec_render_page(p.code@, p.text@, start_line as int, capacity as int),
        page.lines@.len() <= capacity,
{
    let code_len = p.code.len();
    let mut lines: Vec<RenderedLine> = Vec::new();
    let mut bold = StyleVarStack::new();
    let mut cur_line: u64 = 0;
    let mut remaining: u32 = capacity;
    let mut row: u32 = 0;
    let mut idx: usize = 0;
    while idx < code_len
        invariant
            p.wf(),
            code_len == p.code@.len(),
            idx <= code_len,
            cur_line <= idx,
            bold.depth() <= idx,
            remaining <= capacity,
            row == capacity - remaining,
            lines@.len() <= capacity - remaining,
            spec_render_page(p.code@, p.text@, start_line as int, capacity as int)
                == lines_view(lines@) + spec_render_from(
                p.code@,
                p.text@,
                idx as int,
                cur_line as int,
                remaining as int,
                bold.depth() as nat,
                start_line as int,
                row as int,
            ),
        ensures
            lines@.len() <= capacity,
            spec_render_page(p.code@, p.text@, start_line as int, capacity as int) == lines_view(
                lines@,
            ),
        decreases code_len - idx,
    {
        if remaining == 0 {
            break;
        }
        let ghost tail = spec_render_from(
            p.code@,
            p.text@,
            idx as int,
            cur_line as int,
            remaining as int,
            bold.depth() as nat,
            start_line as int,
            row as int,
        );
        match p.code[idx] {
            Instruction::Text(a) => {
                cur_line += 1;
                if cur_line < start_line as u64 + 1 {
                    // Not yet scrolled into view: skip the draw, keep walking.
                } else {
                    let text = p.slice_in_bounds(a);
                    let is_bold = bold.is_enabled();
                    let line = RenderedLine { text, bold: is_bold, row };
                    proof {
                        assert(lines_view(lines@) + tail =~= lines_view(lines@.push(line))
                            + spec_render_from(
                            p.code@,
                            p.text@,
                            idx + 1,
                            cur_line as int,
                            remaining - 1,
                            bold.depth() as nat,
                            start_line as int,
                            row + 1,
                        ));
                    }
                    lines.push(line);
                    remaining -= 1;
                    row += 1;
                }
            },
            Instruction::Push(StyleVar::Bold) => {
                bold.push();
            },
            Instruction::Pop(StyleVar::Bold) => {
                // A pop with nothing outstanding stays at depth zero rather
                // than underflowing the counter.
                if bold.is_enabled() {
                    bold.pop();
                }
            },
            Instruction::Endl => {
                cur_line += 1;
                if cur_line < start_line as u64 {
                    // Still above the window: no row is consumed.
                } else {
                    remaining -= 1;
                    row += 1;
                }
            },
            Instruction::Stop => {
                proof {
                    assert(lines_view(lines@) + tail =~= lines_view(lines@));
                }
                break;
            },
        }
        idx += 1;
    }
    Page { lines }
}

/// One full engine cycle: render the visible page, then signal exactly one
/// redraw request for the display-flush collaborator.
pub fn render_cycle(p: &Program, start_line: u32, capacity: u32) -> (r: (Page, RedrawRequest))
    requires
        p.wf(),
    ensures
        r.0@ == spec_render_page(p.code@, p.text@, start_line as int, capacity as int),
        r.0.lines@.len() <= capacity,
{
    let page = render_pass(p, start_line, capacity);
    (page, RedrawRequest)
}

} // verus!
