//! Interface of the word-granular access primitive that a register file is
//! built over.
//!
//! A `RegisterMemory` stands for one 4 KiB page of memory-mapped control
//! registers. Its model is the word currently held at each word-aligned byte
//! offset, together with the ordered log of the word writes performed through
//! it, so that callers can state exactly which writes an operation issues.
//! The crate provides a verified in-memory implementation for testing
//! (`model::SimMemory`); a hardware-backed implementation performs one
//! volatile access per call and lives outside the verified library.

use vstd::prelude::*;

verus! {

pub trait RegisterMemory {
    /// The word currently held at each word-aligned byte offset of the page.
    ///
    /// The default stands for an implementation whose contents are unknown,
    /// such as one backed by real hardware.
    open spec fn mem(&self) -> Map<usize, u32> {
        Map::empty()
    }

    /// The word writes performed so far, in order: byte offset and value.
    open spec fn writes(&self) -> Seq<(usize, u32)> {
        Seq::empty()
    }

    /// Performs exactly one word read at the given byte offset.
    fn read_word(&mut self, offset: usize) -> (r: u32)
        requires
            offset % 4 == 0,
            offset < 4096,
        ensures
            r == old(self).mem()[offset],
            final(self).mem() == old(self).mem(),
            final(self).writes() == old(self).writes(),
    ;

    /// Performs exactly one word write at the given byte offset.
    fn write_word(&mut self, offset: usize, value: u32)
        requires
            offset % 4 == 0,
            offset < 4096,
        ensures
            final(self).mem() == old(self).mem().insert(offset, value),
            final(self).writes() == old(self).writes().push((offset, value)),
    ;
}

} // verus!
