//! The I/O interrupt router and its two-register indirect interface.
//!
//! The router exposes exactly two directly addressable registers: a select
//! register, which takes an 8-bit index, and a window register, through
//! which the indexed internal word is read or written. Every logical
//! operation is a strict sequence of select writes and window accesses, one
//! select per word touched; a redirection-table entry spans two adjacent
//! words and is always committed low word first.
//!
//! The pair is modeled by the [`SelectWindow`] interface, whose log of
//! primitive accesses lets each operation state the exact sequence it
//! issues. The crate provides a verified in-memory implementation for
//! testing (`model::SimSelectWindow`); a hardware-backed implementation
//! performs one volatile access per call and lives outside the verified
//! library.

use vstd::prelude::*;

use crate::bits::{bits_of, get_bits, lemma_low_mask_values, set_bits, with_bits};

pub mod values;

verus! {

/// One primitive access to the select/window register pair.
#[derive(Debug, Copy, Clone, PartialEq, Eq)]
pub enum WindowAccess {
    /// A write of an index to the select register.
    SelectWrite(u8),
    /// A read of the window register.
    WindowRead,
    /// A write of a value to the window register.
    WindowWrite(u32),
}

/// Interface of the select/window register pair of one I/O router.
///
/// Its model is the currently selected index, the word held at each of the
/// 256 indirectly addressable indices, and the ordered log of the primitive
/// accesses performed, so that callers can state exactly which accesses an
/// operation issues and in which order.
pub trait SelectWindow {
    /// The index currently held by the select register.
    ///
    /// The defaults of the three model functions stand for an
    /// implementation whose state is unknown, such as one backed by real
    /// hardware.
    open spec fn selected(&self) -> u8 {
        0u8
    }

    /// The word currently held at each indirect index.
    open spec fn regs(&self) -> Map<u8, u32> {
        Map::empty()
    }

    /// The primitive accesses performed so far, in order.
    open spec fn log(&self) -> Seq<WindowAccess> {
        Seq::empty()
    }

    /// Performs exactly one write of `index` to the select register.
    fn write_select(&mut self, index: u8)
        ensures
            final(self).selected() == index,
            final(self).regs() == old(self).regs(),
            final(self).log() == old(self).log().push(WindowAccess::SelectWrite(index)),
    ;

    /// Performs exactly one read of the window register, returning the word
    /// at the currently selected index.
    fn read_window(&mut self) -> (r: u32)
        ensures
            r == old(self).regs()[old(self).selected()],
            final(self).selected() == old(self).selected(),
            final(self).regs() == old(self).regs(),
            final(self).log() == old(self).log().push(WindowAccess::WindowRead),
    ;

    /// Performs exactly one write of `value` to the window register,
    /// replacing the word at the currently selected index.
    fn write_window(&mut self, value: u32)
        ensures
            final(self).selected() == old(self).selected(),
            final(self).regs() == old(self).regs().insert(old(self).selected(), value),
            final(self).log() == old(self).log().push(WindowAccess::WindowWrite(value)),
    ;
}

/// Byte offset of each directly addressable register of the I/O router,
/// relative to its base address.
#[derive(Debug, Eq, PartialEq, Copy, Clone)]
pub enum Offset {
    Select,
    Window,
}

impl Offset {
    /// The fixed byte offset of the register.
    pub open spec fn spec_byte_offset(self) -> usize {
        match self {
            Offset::Select => 0x0,
            Offset::Window => 0x10,
        }
    }

    /// The fixed byte offset of the register.
    pub fn byte_offset(self) -> (r: usize)
        ensures
            r == self.spec_byte_offset(),
    {
        match self {
            Offset::Select => 0x0,
            Offset::Window => 0x10,
        }
    }
}

/// Indirect index of each named internal register of the I/O router.
#[derive(Debug, Copy, Clone)]
pub enum Index {
    Id,
    Version,
    Arbitration,
    RedirectionTableEntryBase,
}

impl Index {
    /// The fixed indirect index of the register.
    pub open spec fn spec_u8(self) -> u8 {
        match self {
            Index::Id => 0x0,
            Index::Version => 0x1,
            Index::Arbitration => 0x2,
            Index::RedirectionTableEntryBase => 0x10,
        }
    }

    /// The fixed indirect index of the register.
    pub fn as_u8(self) -> (r: u8)
        ensures
            r == self.spec_u8(),
    {
        match self {
            Index::Id => 0x0,
            Index::Version => 0x1,
            Index::Arbitration => 0x2,
            Index::RedirectionTableEntryBase => 0x10,
        }
    }
}

/// Value of the select register: its low byte is the indirect index.
#[derive(Debug, Copy, Clone)]
pub struct Select(u32);

impl View for Select {
    type V = u32;

    closed spec fn view(&self) -> u32 {
        self.0
    }
}

impl Select {
    /// Builds a select value holding the given index.
    pub fn new(index: u8) -> (r: Self)
        ensures
            r@ == index as u32,
    {
        Select(index as u32)
    }

    /// Wraps a raw word read from the select register.
    pub fn from_raw(raw: u32) -> (r: Self)
        ensures
            r@ == raw,
    {
        Select(raw)
    }

    /// Replaces the index (bits 0..8), leaving the other bits untouched.
    pub fn set_index(&mut self, index: u8)
        ensures
            final(self)@ == with_bits(old(self)@, 0, 8, index as u32),
    {
        proof {
            lemma_low_mask_values();
        }
        self.0 = set_bits(self.0, 0, 8, index as u32);
    }

    /// The raw word to write to the select register.
    pub fn into_raw(self) -> (r: u32)
        ensures
            r == self@,
    {
        self.0
    }
}

/// The indirect index of the low word of the redirection-table entry for
/// `irq`.
pub open spec fn spec_redirection_low_index(irq: u8) -> u8 {
    (0x10 + 2 * irq) as u8
}

/// The indirect index of the high word of the redirection-table entry for
/// `irq`.
pub open spec fn spec_redirection_high_index(irq: u8) -> u8 {
    (0x11 + 2 * irq) as u8
}

/// Error returned when a caller asks for a redirection-table line the
/// router does not have: only lines 0 to 23 exist.
#[derive(Debug, Copy, Clone, PartialEq, Eq)]
pub struct InvalidIrq;

/// The indirect interface of one I/O router, bound to the access primitive
/// for its select/window register pair.
pub struct IoApicBase<W: SelectWindow> {
    pub dev: W,
}

impl<W: SelectWindow> IoApicBase<W> {
    /// Binds the indirect interface to the access primitive of its
    /// select/window pair.
    pub fn new(dev: W) -> (r: Self)
        ensures
            r.dev == dev,
    {
        IoApicBase { dev }
    }

    /// Reads the router's identifier: one select write, one window read.
    pub fn read_id(&mut self) -> (r: u8)
        ensures
            r as u32 == bits_of(old(self).dev.regs()[Index::Id.spec_u8()], 24, 28),
            final(self).dev.regs() == old(self).dev.regs(),
            final(self).dev.selected() == Index::Id.spec_u8(),
            final(self).dev.log() == old(self).dev.log().push(
                WindowAccess::SelectWrite(Index::Id.spec_u8()),
            ).push(WindowAccess::WindowRead),
    {
        let index: u8 = Index::Id.as_u8();
        self.dev.write_select(index);
        let w: u32 = self.dev.read_window();
        proof {
            lemma_low_mask_values();
        }
        let v: u32 = get_bits(w, 24, 28);
        v as u8
    }

    /// Reads the router's version register: one select write, one window
    /// read.
    pub fn read_version(&mut self) -> (r: values::Version)
        ensures
            r@ == old(self).dev.regs()[Index::Version.spec_u8()],
            final(self).dev.regs() == old(self).dev.regs(),
            final(self).dev.selected() == Index::Version.spec_u8(),
            final(self).dev.log() == old(self).dev.log().push(
                WindowAccess::SelectWrite(Index::Version.spec_u8()),
            ).push(WindowAccess::WindowRead),
    {
        let index: u8 = Index::Version.as_u8();
        self.dev.write_select(index);
        let w: u32 = self.dev.read_window();
        values::Version::from_raw(w)
    }

    /// Reads the router's arbitration register: one select write, one
    /// window read.
    pub fn read_arbitration(&mut self) -> (r: values::Arbitration)
        ensures
            r@ == old(self).dev.regs()[Index::Arbitration.spec_u8()],
            final(self).dev.regs() == old(self).dev.regs(),
            final(self).dev.selected() == Index::Arbitration.spec_u8(),
            final(self).dev.log() == old(self).dev.log().push(
                WindowAccess::SelectWrite(Index::Arbitration.spec_u8()),
            ).push(WindowAccess::WindowRead),
    {
        let index: u8 = Index::Arbitration.as_u8();
        self.dev.write_select(index);
        let w: u32 = self.dev.read_window();
        values::Arbitration::from_raw(w)
    }

    /// Writes the router's arbitration register: one select write, one
    /// window write.
    pub fn write_arbitration(&mut self, value: values::Arbitration)
        ensures
            final(self).dev.regs() == old(self).dev.regs().insert(
                Index::Arbitration.spec_u8(),
                value@,
            ),
            final(self).dev.selected() == Index::Arbitration.spec_u8(),
            final(self).dev.log() == old(self).dev.log().push(
                WindowAccess::SelectWrite(Index::Arbitration.spec_u8()),
            ).push(WindowAccess::WindowWrite(value@)),
    {
        let index: u8 = Index::Arbitration.as_u8();
        self.dev.write_select(index);
        self.dev.write_window(value.into_raw());
    }

    /// Reads the redirection-table entry of line `irq`: two full
    /// select/window round trips, low word first, before the entry is
    /// assembled.
    pub fn read_redirection_table_entry(&mut self, irq: u8) -> (r: values::RedirectionTableEntry)
        requires
            irq < 24,
        ensures
            r == values::RedirectionTableEntry::spec_from_raw(
                old(self).dev.regs()[spec_redirection_low_index(irq)],
                old(self).dev.regs()[spec_redirection_high_index(irq)],
            ),
            r.spec_low() == old(self).dev.regs()[spec_redirection_low_index(irq)],
            r.spec_high() == old(self).dev.regs()[spec_redirection_high_index(irq)],
            final(self).dev.regs() == old(self).dev.regs(),
            final(self).dev.selected() == spec_redirection_high_index(irq),
            final(self).dev.log() == old(self).dev.log().push(
                WindowAccess::SelectWrite(spec_redirection_low_index(irq)),
            ).push(WindowAccess::WindowRead).push(
                WindowAccess::SelectWrite(spec_redirection_high_index(irq)),
            ).push(WindowAccess::WindowRead),
    {
        let index_low: u8 = redirection_low_index(irq);
        let index_high: u8 = index_low + 1;

        self.dev.write_select(index_low);
        let low: u32 = self.dev.read_window();

        self.dev.write_select(index_high);
        let high: u32 = self.dev.read_window();

        values::RedirectionTableEntry::from_raw(low, high)
    }

    /// Writes the redirection-table entry of line `irq`: both words are
    /// committed, in the fixed order low then high, each through one
    /// select/window round trip.
    pub fn write_redirection_table_entry(
        &mut self,
        irq: u8,
        value: values::RedirectionTableEntry,
    )
        requires
            irq < 24,
        ensures
            final(self).dev.regs() == old(self).dev.regs().insert(
                spec_redirection_low_index(irq),
                value.spec_low(),
            ).insert(spec_redirection_high_index(irq), value.spec_high()),
            final(self).dev.selected() == spec_redirection_high_index(irq),
            final(self).dev.log() == old(self).dev.log().push(
                WindowAccess::SelectWrite(spec_redirection_low_index(irq)),
            ).push(WindowAccess::WindowWrite(value.spec_low())).push(
                WindowAccess::SelectWrite(spec_redirection_high_index(irq)),
            ).push(WindowAccess::WindowWrite(value.spec_high())),
    {
        let index_low: u8 = redirection_low_index(irq);
        let index_high: u8 = index_low + 1;

        let (low, high): (u32, u32) = value.into_raw();

        self.dev.write_select(index_low);
        self.dev.write_window(low);

        self.dev.write_select(index_high);
        self.dev.write_window(high);
    }

    /// Reads the entry of line `irq`, applies `f` to it, and writes the
    /// result back, so that no caller ever assembles the word pair by hand.
    pub fn update_redirection_table_entry<F: FnOnce(values::RedirectionTableEntry) -> values::RedirectionTableEntry>(
        &mut self,
        irq: u8,
        f: F,
    )
        requires
            irq < 24,
            forall|e: values::RedirectionTableEntry| #[trigger] call_requires(f, (e,)),
        ensures
            exists|e2: values::RedirectionTableEntry|
                (#[trigger] call_ensures(
                    f,
                    (values::RedirectionTableEntry::spec_from_raw(
                        old(self).dev.regs()[spec_redirection_low_index(irq)],
                        old(self).dev.regs()[spec_redirection_high_index(irq)],
                    ),),
                    e2,
                ) && final(self).dev.regs() == old(self).dev.regs().insert(
                    spec_redirection_low_index(irq),
                    e2.spec_low(),
                ).insert(spec_redirection_high_index(irq), e2.spec_high())
                    && final(self).dev.selected() == spec_redirection_high_index(irq)
                    && final(self).dev.log() == old(self).dev.log().push(
                    WindowAccess::SelectWrite(spec_redirection_low_index(irq)),
                ).push(WindowAccess::WindowRead).push(
                    WindowAccess::SelectWrite(spec_redirection_high_index(irq)),
                ).push(WindowAccess::WindowRead).push(
                    WindowAccess::SelectWrite(spec_redirection_low_index(irq)),
                ).push(WindowAccess::WindowWrite(e2.spec_low())).push(
                    WindowAccess::SelectWrite(spec_redirection_high_index(irq)),
                ).push(WindowAccess::WindowWrite(e2.spec_high()))),
    {
        let value: values::RedirectionTableEntry = self.read_redirection_table_entry(irq);
        let value2: values::RedirectionTableEntry = f(value);
        self.write_redirection_table_entry(irq, value2);
    }

    /// Reads the entry of line `irq` if the line exists; a line of 24 or
    /// above is rejected before any select or window access is issued.
    pub fn try_read_redirection_table_entry(&mut self, irq: u8) -> (r: Result<
        values::RedirectionTableEntry,
        InvalidIrq,
    >)
        ensures
            irq < 24 ==> (r matches Ok(e)
                && e == values::RedirectionTableEntry::spec_from_raw(
                    old(self).dev.regs()[spec_redirection_low_index(irq)],
                    old(self).dev.regs()[spec_redirection_high_index(irq)],
                )
                && e.spec_low() == old(self).dev.regs()[spec_redirection_low_index(irq)]
                && e.spec_high() == old(self).dev.regs()[spec_redirection_high_index(irq)]
                && final(self).dev.regs() == old(self).dev.regs()
                && final(self).dev.selected() == spec_redirection_high_index(irq)
                && final(self).dev.log() == old(self).dev.log()
                    .push(WindowAccess::SelectWrite(spec_redirection_low_index(irq)))
                    .push(WindowAccess::WindowRead)
                    .push(WindowAccess::SelectWrite(spec_redirection_high_index(irq)))
                    .push(WindowAccess::WindowRead)),
            irq >= 24 ==> (r is Err && *final(self) == *old(self)),
    {
        if irq < 24 {
            Result::Ok(self.read_redirection_table_entry(irq))
        } else {
            Result::Err(InvalidIrq)
        }
    }

    /// Writes the entry of line `irq` if the line exists; a line of 24 or
    /// above is rejected before any select or window access is issued.
    pub fn try_write_redirection_table_entry(
        &mut self,
        irq: u8,
        value: values::RedirectionTableEntry,
    ) -> (r: Result<(), InvalidIrq>)
        ensures
            irq < 24 ==> (r is Ok
                && final(self).dev.regs() == old(self).dev.regs()
                    .insert(spec_redirection_low_index(irq), value.spec_low())
                    .insert(spec_redirection_high_index(irq), value.spec_high())
                && final(self).dev.selected() == spec_redirection_high_index(irq)
                && final(self).dev.log() == old(self).dev.log()
                    .push(WindowAccess::SelectWrite(spec_redirection_low_index(irq)))
                    .push(WindowAccess::WindowWrite(value.spec_low()))
                    .push(WindowAccess::SelectWrite(spec_redirection_high_index(irq)))
                    .push(WindowAccess::WindowWrite(value.spec_high()))),
            irq >= 24 ==> (r is Err && *final(self) == *old(self)),
    {
        if irq < 24 {
            self.write_redirection_table_entry(irq, value);
            Result::Ok(())
        } else {
            Result::Err(InvalidIrq)
        }
    }
}

/// The indirect index of the low word of the redirection-table entry for
/// `irq`.
fn redirection_low_index(irq: u8) -> (r: u8)
    requires
        irq < 24,
    ensures
        r == spec_redirection_low_index(irq),
        r < 255,
{
    0x10 + 2 * irq
}

/// Law: a redirection-table entry committed into the register map as its
/// two words reads back, from both words, as the identical entry.
pub proof fn lemma_redirection_write_then_read(
    regs: Map<u8, u32>,
    irq: u8,
    e: values::RedirectionTableEntry,
)
    requires
        irq < 24,
    ensures
        ({
            let regs2 = regs.insert(spec_redirection_low_index(irq), e.spec_low()).insert(
                spec_redirection_high_index(irq),
                e.spec_high(),
            );
            values::RedirectionTableEntry::spec_from_raw(
                regs2[spec_redirection_low_index(irq)],
                regs2[spec_redirection_high_index(irq)],
            ) == e
        }),
{
    assert(spec_redirection_low_index(irq) != spec_redirection_high_index(irq));
    let regs2 = regs.insert(spec_redirection_low_index(irq), e.spec_low()).insert(
        spec_redirection_high_index(irq),
        e.spec_high(),
    );
    values::lemma_from_raw_parts(
        regs2[spec_redirection_low_index(irq)],
        regs2[spec_redirection_high_index(irq)],
    );
    values::lemma_entry_determined_by_raw(
        values::RedirectionTableEntry::spec_from_raw(
            regs2[spec_redirection_low_index(irq)],
            regs2[spec_redirection_high_index(irq)],
        ),
        e,
    );
}

/// Law: committing the entry of one line never touches the words of any
/// other line.
pub proof fn lemma_redirection_write_preserves_other(
    regs: Map<u8, u32>,
    irq: u8,
    e: values::RedirectionTableEntry,
    other: u8,
)
    requires
        irq < 24,
        other < 24,
        other != irq,
    ensures
        ({
            let regs2 = regs.insert(spec_redirection_low_index(irq), e.spec_low()).insert(
                spec_redirection_high_index(irq),
                e.spec_high(),
            );
            regs2[spec_redirection_low_index(other)] == regs[spec_redirection_low_index(other)]
                && regs2[spec_redirection_high_index(other)] == regs[spec_redirection_high_index(
                other,
            )]
        }),
{
    assert(spec_redirection_low_index(other) != spec_redirection_low_index(irq));
    assert(spec_redirection_low_index(other) != spec_redirection_high_index(irq));
    assert(spec_redirection_high_index(other) != spec_redirection_low_index(irq));
    assert(spec_redirection_high_index(other) != spec_redirection_high_index(irq));
}

} // verus!
