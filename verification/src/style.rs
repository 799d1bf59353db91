//! Nested style-attribute tracking.
//!
//! A style attribute (currently only bold) is active while more pushes than
//! pops of it have been seen. The counter makes nested `Push`/`Pop` pairs
//! compose correctly: popping one of two nested pushes leaves the attribute
//! active.

use vstd::prelude::*;

verus! {

/// One nesting counter for a single style attribute. The attribute is
/// active exactly while the counter is positive.
pub struct StyleVarStack {
    state: u32,
}

impl StyleVarStack {
    /// The current nesting depth.
    pub closed spec fn depth(&self) -> u32 {
        self.state
    }

    /// A fresh stack: nothing pushed, attribute inactive.
    pub fn new() -> (s: Self)
        ensures
            s.depth() == 0,
    {
        Self { state: 0 }
    }

    /// Enter one nesting level of the attribute.
    pub fn push(&mut self)
        requires
            old(self).depth() < u32::MAX,
        ensures
            final(self).depth() == old(self).depth() + 1,
    {
        self.state += 1;
    }

    /// Leave one nesting level. Popping with nothing pushed would underflow
    /// the counter, so the caller must know a push is outstanding.
    pub fn pop(&mut self)
        requires
            old(self).depth() > 0,
        ensures
            final(self).depth() == old(self).depth() - 1,
    {
        self.state -= 1;
    }

    /// Whether the attribute is currently active.
    pub fn is_enabled(&self) -> (r: bool)
        ensures
            r == (self.depth() > 0),
    {
        self.state > 0
    }
}

} // verus!
