//! The UI orchestrator: the render loop's own state and its consumer end
//! of the shared scroll mailbox.
//!
//! The running system wires two always-on scroll watchers and the render
//! loop around one mailbox. Each turn of the loop renders the current
//! window, signals a redraw, then consumes the next scroll command and
//! moves the window. The waiting between turns belongs to the runtime; the
//! state transitions of a turn are here.

use vstd::prelude::*;

use crate::mailbox::Mailbox;
use crate::mailbox::notified;
use crate::mailbox::taken;
use crate::program::Program;
use crate::render::Page;
use crate::render::RedrawRequest;
use crate::render::render_cycle;
use crate::render::spec_render_page;
use crate::scroll::LINES_PER_SCROLL;
use crate::scroll::ScrollCommand;
use crate::scroll::apply_scroll;
use crate::scroll::spec_apply_scroll;

verus! {

/// The render loop's state: the loaded document and the first logical line
/// currently scrolled into view.
pub struct Reader {
    pub program: Program,
    pub start_line: u32,
}

impl Reader {
    /// A reader always holds a well-formed program.
    pub open spec fn wf(&self) -> bool {
        self.program.wf()
    }

    /// Open a document at its top.
    pub fn new(program: Program) -> (r: Reader)
        requires
            program.wf(),
        ensures
            r.program == program,
            r.start_line == 0,
            r.wf(),
    {
        Reader { program, start_line: 0 }
    }

    /// Render the window currently in view into a viewport of `capacity`
    /// rows, and signal one redraw request.
    pub fn render_current(&self, capacity: u32) -> (r: (Page, RedrawRequest))
        requires
            self.wf(),
        ensures
            r.0@ == spec_render_page(
                self.program.code@,
                self.program.text@,
                self.start_line as int,
                capacity as int,
            ),
            r.0.lines@.len() <= capacity,
    {
        render_cycle(&self.program, self.start_line, capacity)
    }

    /// Consume the next scroll command, if one is pending, and move the
    /// window by exactly one step: a consumed `Down` adds
    /// `LINES_PER_SCROLL` to `start_line`, a consumed `Up` subtracts it,
    /// clamped at zero. The mailbox is left empty either way.
    pub fn consume_scroll(&mut self, mailbox: &mut Mailbox<ScrollCommand>) -> (consumed: Option<
        ScrollCommand,
    >)
        requires
            old(self).start_line + LINES_PER_SCROLL <= u32::MAX,
        ensures
            consumed == taken(old(mailbox).slot()).0,
            final(mailbox).slot() == taken(old(mailbox).slot()).1,
            final(self).program == old(self).program,
            final(self).start_line as int == match old(mailbox).slot() {
                Some(cmd) => spec_apply_scroll(old(self).start_line as int, cmd),
                None => old(self).start_line as int,
            },
    {
        let cmd = mailbox.take();
        match cmd {
            Some(c) => {
                self.start_line = apply_scroll(self.start_line, c);
            },
            None => {},
        }
        cmd
    }
}

/// Fan-in coalescing at the consumer: scroll triggers deposited before the
/// consumer reads collapse into one consumed command. Three rapid `Down`
/// triggers followed by one consume step yield a single `Down`, move the
/// window by one step (`LINES_PER_SCROLL`, not three times that), and
/// leave the mailbox empty, so no further command can be consumed until a
/// producer runs again.
pub proof fn lemma_fan_in_coalescing(slot: Option<ScrollCommand>, start_line: int)
    ensures
        ({
            let after = notified(
                notified(notified(slot, ScrollCommand::Down), ScrollCommand::Down),
                ScrollCommand::Down,
            );
            &&& taken(after).0 == Some(ScrollCommand::Down)
            &&& taken(after).1 is None
            &&& spec_apply_scroll(start_line, ScrollCommand::Down) == start_line
                + LINES_PER_SCROLL
        }),
{
}

} // verus!
