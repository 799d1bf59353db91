//! The document program: an immutable instruction stream plus an immutable
//! text blob.
//!
//! Instructions are interpreted left to right. A `Text` instruction names a
//! byte range of the blob; the range must lie within the blob, a condition
//! established once when the program is loaded and relied on by the render
//! engine. The slice accessor is bounds-checked: an out-of-range address
//! fails, it is never silently truncated.

use vstd::prelude::*;

verus! {

/// An enumerated style flag. Only bold exists today.
#[derive(Clone, Copy, PartialEq, Eq, Structural, Debug)]
pub enum StyleVar {
    Bold,
}

/// A byte range into the text blob: `offset..offset + len`.
#[derive(Clone, Copy, PartialEq, Eq, Structural, Debug)]
pub struct TextAddress {
    pub offset: usize,
    pub len: usize,
}

impl TextAddress {
    /// The range lies within a blob of `text_len` bytes.
    pub open spec fn in_bounds(&self, text_len: nat) -> bool {
        self.offset + self.len <= text_len
    }
}

/// One instruction of a document program.
#[derive(Clone, Copy, PartialEq, Eq, Structural, Debug)]
pub enum Instruction {
    /// Emit one logical line of text, read from the blob.
    Text(TextAddress),
    /// Enter one nesting level of a style attribute.
    Push(StyleVar),
    /// Leave one nesting level of a style attribute.
    Pop(StyleVar),
    /// End the current logical line without emitting text.
    Endl,
    /// Terminate interpretation immediately.
    Stop,
}

/// A decoded document: the instruction stream and the text blob it
/// addresses. Loaded once, never mutated.
pub struct Program {
    pub code: Vec<Instruction>,
    pub text: Vec<u8>,
}

impl Program {
    /// Well-formedness, established at load time: every text address lies
    /// within the blob, and the instruction count fits the nesting counter.
    pub open spec fn wf(&self) -> bool {
        &&& forall|i: int|
            0 <= i < self.code@.len() ==> match #[trigger] self.code@[i] {
                Instruction::Text(a) => a.in_bounds(self.text@.len()),
                _ => true,
            }
        &&& self.code@.len() <= u32::MAX
    }

    /// A program with no instructions and an empty blob.
    pub fn new() -> (p: Self)
        ensures
            p.code@.len() == 0,
            p.text@.len() == 0,
            p.wf(),
    {
        Self { code: Vec::new(), text: Vec::new() }
    }

    /// Check well-formedness of a freshly decoded program: every `Text`
    /// address must lie within the blob. Run once at load time; a program
    /// that fails here is a fatal load fault.
    pub fn validate(&self) -> (r: bool)
        ensures
            r == self.wf(),
    {
        if self.code.len() > u32::MAX as usize {
            return false;
        }
        let mut i: usize = 0;
        while i < self.code.len()
            invariant
                i <= self.code@.len(),
                forall|j: int|
                    0 <= j < i ==> match #[trigger] self.code@[j] {
                        Instruction::Text(a) => a.in_bounds(self.text@.len()),
                        _ => true,
                    },
            decreases self.code@.len() - i,
        {
            match self.code[i] {
                Instruction::Text(a) => {
                    if !(a.len <= self.text.len() && a.offset <= self.text.len() - a.len) {
                        return false;
                    }
                },
                _ => {},
            }
            i += 1;
        }
        true
    }

    /// Copy the addressed bytes out of the blob. The caller must know the
    /// address is in bounds; `text_slice` is the checked entry point.
    pub(crate) fn slice_in_bounds(&self, addr: TextAddress) -> (r: Vec<u8>)
        requires
            addr.in_bounds(self.text@.len()),
        ensures
            r@ == self.text@.subrange(addr.offset as int, addr.offset + addr.len),
    {
        let n = self.text.len();
        let mut out: Vec<u8> = Vec::new();
        let mut j: usize = 0;
        while j < addr.len
            invariant
                j <= addr.len,
                addr.offset + addr.len <= self.text@.len(),
                self.text@.len() == n,
                out@ == self.text@.subrange(addr.offset as int, addr.offset + j),
            decreases addr.len - j,
        {
            out.push(self.text[addr.offset + j]);
            proof {
                assert(out@ =~= self.text@.subrange(addr.offset as int, addr.offset + j + 1));
            }
            j += 1;
        }
        out
    }

    /// Bounds-checked text access: the addressed bytes when the range lies
    /// within the blob, and a failure — never a truncated slice — when it
    /// does not.
    pub fn text_slice(&self, addr: TextAddress) -> (r: Option<Vec<u8>>)
        ensures
            match r {
                Some(v) => addr.in_bounds(self.text@.len()) && v@ == self.text@.subrange(
                    addr.offset as int,
                    addr.offset + addr.len,
                ),
                None => !addr.in_bounds(self.text@.len()),
            },
    {
        if addr.len <= self.text.len() && addr.offset <= self.text.len() - addr.len {
            Some(self.slice_in_bounds(addr))
        } else {
            None
        }
    }
}

} // verus!
