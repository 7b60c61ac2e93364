//! In-memory reference devices.
//!
//! These implement the word-access interfaces of [`crate::access`] and
//! [`crate::io_apic`] over plain arrays, with every contract of the
//! interfaces proved, and additionally expose their access logs so that
//! tests can observe exactly which accesses an operation performed.

use vstd::map::*;
use vstd::prelude::*;

use crate::access::RegisterMemory;
use crate::io_apic::{SelectWindow, WindowAccess};

verus! {

/// A simulated 4 KiB register page: a plain in-memory word store that
/// records every write performed through it.
pub struct SimMemory {
    cells: [u32; 4096],
    write_log: Vec<(usize, u32)>,
}

impl SimMemory {
    /// A page holding zero in every word, with nothing written yet.
    pub fn new() -> (r: Self)
        ensures
            forall|off: usize| off % 4 == 0 && off < 4096 ==> #[trigger] r.mem()[off] == 0u32,
            r.writes() == Seq::<(usize, u32)>::empty(),
    {
        SimMemory { cells: [0u32; 4096], write_log: Vec::new() }
    }

    /// The number of word writes performed so far, for test observation.
    pub fn write_count(&self) -> (n: usize)
        ensures
            n == self.writes().len(),
    {
        self.write_log.len()
    }

    /// The `i`-th word write performed: byte offset and value.
    pub fn nth_write(&self, i: usize) -> (w: (usize, u32))
        requires
            i < self.writes().len(),
        ensures
            w == self.writes()[i as int],
    {
        self.write_log[i]
    }
}

impl RegisterMemory for SimMemory {
    closed spec fn mem(&self) -> Map<usize, u32> {
        Map::new(|off: usize| off % 4 == 0 && off < 4096, |off: usize| self.cells@[off as int])
    }

    closed spec fn writes(&self) -> Seq<(usize, u32)> {
        self.write_log@
    }

    fn read_word(&mut self, offset: usize) -> (r: u32) {
        let r: u32 = self.cells[offset];
        proof {
            assert(r == self.mem()[offset]);
        }
        r
    }

    fn write_word(&mut self, offset: usize, value: u32) {
        self.cells[offset] = value;
        self.write_log.push((offset, value));
        proof {
            assert_maps_equal!(self.mem(), old(self).mem().insert(offset, value));
        }
    }
}

/// A simulated select/window register pair over 256 indirect words: a plain
/// in-memory store that records every primitive access performed through it.
pub struct SimSelectWindow {
    current: u8,
    cells: [u32; 256],
    access_log: Vec<WindowAccess>,
}

impl SimSelectWindow {
    /// A pair with index zero selected, zero in every indirect word, and
    /// nothing accessed yet.
    pub fn new() -> (r: Self)
        ensures
            r.selected() == 0u8,
            forall|i: u8| #[trigger] r.regs()[i] == 0u32,
            r.log() == Seq::<WindowAccess>::empty(),
    {
        SimSelectWindow { current: 0, cells: [0u32; 256], access_log: Vec::new() }
    }

    /// The number of primitive accesses performed so far, for test
    /// observation.
    pub fn access_count(&self) -> (n: usize)
        ensures
            n == self.log().len(),
    {
        self.access_log.len()
    }

    /// The `i`-th primitive access performed.
    pub fn nth_access(&self, i: usize) -> (a: WindowAccess)
        requires
            i < self.log().len(),
        ensures
            a == self.log()[i as int],
    {
        self.access_log[i]
    }
}

impl SelectWindow for SimSelectWindow {
    closed spec fn selected(&self) -> u8 {
        self.current
    }

    closed spec fn regs(&self) -> Map<u8, u32> {
        Map::new(|i: u8| true, |i: u8| self.cells@[i as int])
    }

    closed spec fn log(&self) -> Seq<WindowAccess> {
        self.access_log@
    }

    fn write_select(&mut self, index: u8) {
        self.current = index;
        self.access_log.push(WindowAccess::SelectWrite(index));
        proof {
            assert_maps_equal!(self.regs(), old(self).regs());
        }
    }

    fn read_window(&mut self) -> (r: u32) {
        self.access_log.push(WindowAccess::WindowRead);
        let r: u32 = self.cells[self.current as usize];
        proof {
            assert_maps_equal!(self.regs(), old(self).regs());
            assert(r == old(self).regs()[old(self).selected()]);
        }
        r
    }

    fn write_window(&mut self, value: u32) {
        let i: usize = self.current as usize;
        self.cells[i] = value;
        self.access_log.push(WindowAccess::WindowWrite(value));
        proof {
            assert_maps_equal!(self.regs(), old(self).regs().insert(old(self).selected(), value));
        }
    }
}

} // verus!
