//! The options word of an IDT entry: present bit, gate type, privilege level and
//! interrupt stack index.

use vstd::prelude::*;
use crate::bits::{set_bit_u16, set_bits_u16, with_bit, with_bits};

verus! {

/// The options word with only its must-be-one bits (9, 10, 11) set: a
/// non-present 64-bit interrupt gate with privilege level 0 and no stack switch.
pub const MINIMAL_OPTIONS: u16 = 0x0e00;

/// Bit 15: the present bit.
pub const PRESENT_MASK: u16 = 0x8000;

/// Bit 8: clear for an interrupt gate (interrupts disabled in the handler),
/// set for a trap gate (interrupts left enabled).
pub const TRAP_GATE_MASK: u16 = 0x0100;

/// Bits 13..15: the descriptor privilege level.
pub const DPL_MASK: u16 = 0x6000;

/// Bits 0..3: the hardware interrupt stack table field.
pub const IST_MASK: u16 = 0x0007;

/// The bits whose value is fixed for every options word this library makes:
/// bits 9..12 (the descriptor kind, apart from bit 8) and the reserved bits 3..8.
pub const FIXED_MASK: u16 = 0x1ef8;

/// A protection ring level, as the privilege level of an IDT entry.
#[derive(Clone, Copy, Debug, PartialEq, Eq)]
pub enum PrivilegeLevel {
    /// Most privileged: kernel code and interrupt handlers.
    Ring0,
    /// Moderately privileged system services.
    Ring1,
    /// Moderately privileged system services.
    Ring2,
    /// Least privileged: application code.
    Ring3,
}

impl PrivilegeLevel {
    /// The ring's number, 0 to 3.
    pub open spec fn number(self) -> u16 {
        match self {
            PrivilegeLevel::Ring0 => 0,
            PrivilegeLevel::Ring1 => 1,
            PrivilegeLevel::Ring2 => 2,
            PrivilegeLevel::Ring3 => 3,
        }
    }

    /// The ring's number, 0 to 3.
    pub fn as_u16(self) -> (r: u16)
        ensures
            r == self.number(),
            r <= 3,
    {
        match self {
            PrivilegeLevel::Ring0 => 0,
            PrivilegeLevel::Ring1 => 1,
            PrivilegeLevel::Ring2 => 2,
            PrivilegeLevel::Ring3 => 3,
        }
    }
}

/// Represents the options field of an IDT entry.
#[derive(Clone, Copy, PartialEq, Eq, Structural)]
pub struct EntryOptions(u16);

impl View for EntryOptions {
    type V = u16;

    /// The raw 16-bit options word.
    closed spec fn view(&self) -> u16 {
        self.0
    }
}

impl EntryOptions {
    /// The options value whose word is `bits`.
    pub closed spec fn spec_from_bits(bits: u16) -> EntryOptions {
        EntryOptions(bits)
    }

    /// The options value made from a word holds that word.
    pub proof fn lemma_spec_from_bits_view(bits: u16)
        ensures
            EntryOptions::spec_from_bits(bits)@ == bits,
    {
    }

    /// Two options values with the same word are the same value.
    pub proof fn lemma_from_bits(opts: EntryOptions)
        ensures
            EntryOptions::spec_from_bits(opts@) == opts,
            EntryOptions::spec_from_bits(opts@)@ == opts@,
    {
    }

    /// The raw 16-bit options word.
    pub fn bits(&self) -> (r: u16)
        ensures
            r == self@,
    {
        self.0
    }

    /// Whether the present bit is set.
    pub open spec fn present(self) -> bool {
        self@ & PRESENT_MASK != 0
    }

    /// Whether the handler runs with hardware interrupts disabled (an interrupt
    /// gate rather than a trap gate).
    pub open spec fn interrupts_disabled(self) -> bool {
        self@ & TRAP_GATE_MASK == 0
    }

    /// The descriptor privilege level, 0 to 3.
    pub open spec fn privilege_level(self) -> u16 {
        (self@ & DPL_MASK) >> 13u16
    }

    /// The hardware IST field: 0 for no stack switch, `i + 1` for stack index `i`.
    pub open spec fn stack_field(self) -> u16 {
        self@ & IST_MASK
    }

    /// The must-be-one bits are set and the reserved bits are clear.
    pub open spec fn wf(self) -> bool {
        self@ & FIXED_MASK == MINIMAL_OPTIONS
    }

    /// Creates a minimal options field with all the must-be-one bits set.
    pub fn minimal() -> (r: Self)
        ensures
            r@ == MINIMAL_OPTIONS,
            r.wf(),
            !r.present(),
            r.interrupts_disabled(),
            r.privilege_level() == 0,
            r.stack_field() == 0,
    {
        let r = EntryOptions(MINIMAL_OPTIONS);
        assert(r.wf() && !r.present() && r.interrupts_disabled() && r.privilege_level() == 0
            && r.stack_field() == 0) by {
            assert(0x0e00u16 & 0x1ef8u16 == 0x0e00u16 && 0x0e00u16 & 0x8000u16 == 0
                && 0x0e00u16 & 0x0100u16 == 0 && (0x0e00u16 & 0x6000u16) >> 13u16 == 0
                && 0x0e00u16 & 0x0007u16 == 0) by (bit_vector);
        }
        r
    }

    /// Set or reset the present bit.
    pub fn set_present(&mut self, present: bool) -> (r: &mut Self)
        ensures
            (*r)@ == with_bit(old(self)@, 15, present),
            (*r).present() == present,
            (*r).interrupts_disabled() == old(self).interrupts_disabled(),
            (*r).privilege_level() == old(self).privilege_level(),
            (*r).stack_field() == old(self).stack_field(),
            (*r)@ & !PRESENT_MASK == old(self)@ & !PRESENT_MASK,
            old(self).wf() ==> (*r).wf(),
            *final(self) == *final(r),
    {
        set_bit_u16(&mut self.0, 15, present);
        proof {
            let x = old(self)@;
            let y = self.0;
            assert(y == with_bit(x, 15, present));
            assert(((y & 0x8000u16 != 0) == present) && (y & !0x8000u16) == (x & !0x8000u16)
                && (y & 0x0100u16) == (x & 0x0100u16) && (y & 0x6000u16) == (x & 0x6000u16)
                && (y & 0x0007u16) == (x & 0x0007u16)
                && ((x & 0x1ef8u16) == 0x0e00u16 ==> (y & 0x1ef8u16) == 0x0e00u16))
                by (bit_vector)
                requires
                    y == (if present { x | (1u16 << 15u16) } else { x & !(1u16 << 15u16) }),
            ;
        }
        self
    }
    /// Let the CPU disable hardware interrupts when the handler is invoked. By default,
    /// interrupts are disabled on handler invocation.
    pub fn disable_interrupts(&mut self, disable: bool) -> (r: &mut Self)
        ensures
            (*r)@ == with_bit(old(self)@, 8, !disable),
            (*r).interrupts_disabled() == disable,
            (*r).present() == old(self).present(),
            (*r).privilege_level() == old(self).privilege_level(),
            (*r).stack_field() == old(self).stack_field(),
            (*r)@ & !TRAP_GATE_MASK == old(self)@ & !TRAP_GATE_MASK,
            old(self).wf() ==> (*r).wf(),
            *final(self) == *final(r),
    {
        set_bit_u16(&mut self.0, 8, !disable);
        proof {
            let x = old(self)@;
            let y = self.0;
            let f = !disable;
            assert(((y & 0x0100u16 == 0) == disable) && (y & !0x0100u16) == (x & !0x0100u16)
                && (y & 0x8000u16) == (x & 0x8000u16) && (y & 0x6000u16) == (x & 0x6000u16)
                && (y & 0x0007u16) == (x & 0x0007u16)
                && ((x & 0x1ef8u16) == 0x0e00u16 ==> (y & 0x1ef8u16) == 0x0e00u16))
                by (bit_vector)
                requires
                    f == !disable,
                    y == (if f { x | (1u16 << 8u16) } else { x & !(1u16 << 8u16) }),
            ;
        }
        self
    }

    /// Set the required privilege level (DPL) for invoking the handler. The DPL can be 0, 1, 2,
    /// or 3, the default is 0. If CPL < DPL, a general protection fault occurs.
    pub fn set_privilege_level(&mut self, dpl: PrivilegeLevel) -> (r: &mut Self)
        ensures
            (*r)@ == with_bits(old(self)@, 13, 15, dpl.number()),
            (*r).privilege_level() == dpl.number(),
            (*r).present() == old(self).present(),
            (*r).interrupts_disabled() == old(self).interrupts_disabled(),
            (*r).stack_field() == old(self).stack_field(),
            (*r)@ & !DPL_MASK == old(self)@ & !DPL_MASK,
            old(self).wf() ==> (*r).wf(),
            *final(self) == *final(r),
    {
        let level = dpl.as_u16();
        assert(crate::bits::low_mask(2) == 3) by (bit_vector);
        set_bits_u16(&mut self.0, 13, 15, level);
        proof {
            let x = old(self)@;
            let y = self.0;
            assert(((y & 0x6000u16) >> 13u16 == level) && (y & !0x6000u16) == (x & !0x6000u16)
                && (y & 0x8000u16) == (x & 0x8000u16) && (y & 0x0100u16) == (x & 0x0100u16)
                && (y & 0x0007u16) == (x & 0x0007u16)
                && ((x & 0x1ef8u16) == 0x0e00u16 ==> (y & 0x1ef8u16) == 0x0e00u16))
                by (bit_vector)
                requires
                    level <= 3,
                    y == (x & !((((1u16 << 2u16) - 1) as u16) << 13u16)) | (level << 13u16),
            ;
        }
        self
    }

    /// Assigns a Interrupt Stack Table (IST) stack to this handler. The CPU will then always
    /// switch to the specified stack before the handler is invoked. This allows kernels to
    /// recover from corrupt stack pointers (e.g., on kernel stack overflow).
    ///
    /// An IST stack is specified by an IST index between 0 and 6 (inclusive); the hardware
    /// field holds the index plus one. Using the same stack for multiple interrupts can be
    /// dangerous when nested interrupts are possible, so the caller must make sure that the
    /// stack index is valid and not used by other interrupts.
    pub fn set_stack_index(&mut self, index: u16) -> (r: &mut Self)
        requires
            index < 7,
        ensures
            (*r)@ == with_bits(old(self)@, 0, 3, (index + 1) as u16),
            (*r).stack_field() == index + 1,
            (*r).present() == old(self).present(),
            (*r).interrupts_disabled() == old(self).interrupts_disabled(),
            (*r).privilege_level() == old(self).privilege_level(),
            (*r)@ & !IST_MASK == old(self)@ & !IST_MASK,
            old(self).wf() ==> (*r).wf(),
            *final(self) == *final(r),
    {
        assert(crate::bits::low_mask(3) == 7) by (bit_vector);
        let field = index + 1;
        set_bits_u16(&mut self.0, 0, 3, field);
        proof {
            let x = old(self)@;
            let y = self.0;
            assert((y & 0x0007u16 == field) && (y & !0x0007u16) == (x & !0x0007u16)
                && (y & 0x8000u16) == (x & 0x8000u16) && (y & 0x0100u16) == (x & 0x0100u16)
                && (y & 0x6000u16) == (x & 0x6000u16)
                && ((x & 0x1ef8u16) == 0x0e00u16 ==> (y & 0x1ef8u16) == 0x0e00u16))
                by (bit_vector)
                requires
                    field <= 7,
                    y == (x & !((((1u16 << 3u16) - 1) as u16) << 0u16)) | (field << 0u16),
            ;
        }
        self
    }
}

/// Setting the same field twice keeps only the second value: for the present bit,
/// the trap bit, the privilege level and the stack field in the same way.
pub proof fn lemma_last_write_wins(x: u16, a: bool, b: bool, d1: u16, d2: u16, s1: u16, s2: u16)
    requires
        d1 <= 3,
        d2 <= 3,
        s1 <= 7,
        s2 <= 7,
    ensures
        with_bit(with_bit(x, 15, a), 15, b) == with_bit(x, 15, b),
        with_bit(with_bit(x, 8, a), 8, b) == with_bit(x, 8, b),
        with_bits(with_bits(x, 13, 15, d1), 13, 15, d2) == with_bits(x, 13, 15, d2),
        with_bits(with_bits(x, 0, 3, s1), 0, 3, s2) == with_bits(x, 0, 3, s2),
{
    assert(with_bit(with_bit(x, 15, a), 15, b) == with_bit(x, 15, b)) by (bit_vector);
    assert(with_bit(with_bit(x, 8, a), 8, b) == with_bit(x, 8, b)) by (bit_vector);
    assert(with_bits(with_bits(x, 13, 15, d1), 13, 15, d2) == with_bits(x, 13, 15, d2))
        by (bit_vector)
        requires
            d1 <= 3,
            d2 <= 3,
    ;
    assert(with_bits(with_bits(x, 0, 3, s1), 0, 3, s2) == with_bits(x, 0, 3, s2))
        by (bit_vector)
        requires
            s1 <= 7,
            s2 <= 7,
    ;
}

/// The four option setters act on separate fields, so any two of them give the
/// same word in either order.
pub proof fn lemma_setters_commute(x: u16, p: bool, t: bool, d: u16, s: u16)
    requires
        d <= 3,
        s <= 7,
    ensures
        with_bit(with_bit(x, 15, p), 8, t) == with_bit(with_bit(x, 8, t), 15, p),
        with_bits(with_bit(x, 15, p), 13, 15, d) == with_bit(with_bits(x, 13, 15, d), 15, p),
        with_bits(with_bit(x, 15, p), 0, 3, s) == with_bit(with_bits(x, 0, 3, s), 15, p),
        with_bits(with_bit(x, 8, t), 13, 15, d) == with_bit(with_bits(x, 13, 15, d), 8, t),
        with_bits(with_bit(x, 8, t), 0, 3, s) == with_bit(with_bits(x, 0, 3, s), 8, t),
        with_bits(with_bits(x, 13, 15, d), 0, 3, s) == with_bits(with_bits(x, 0, 3, s), 13, 15, d),
{
    assert(with_bit(with_bit(x, 15, p), 8, t) == with_bit(with_bit(x, 8, t), 15, p))
        by (bit_vector);
    assert(with_bits(with_bit(x, 15, p), 13, 15, d) == with_bit(with_bits(x, 13, 15, d), 15, p))
        by (bit_vector)
        requires
            d <= 3,
    ;
    assert(with_bits(with_bit(x, 15, p), 0, 3, s) == with_bit(with_bits(x, 0, 3, s), 15, p))
        by (bit_vector)
        requires
            s <= 7,
    ;
    assert(with_bits(with_bit(x, 8, t), 13, 15, d) == with_bit(with_bits(x, 13, 15, d), 8, t))
        by (bit_vector)
        requires
            d <= 3,
    ;
    assert(with_bits(with_bit(x, 8, t), 0, 3, s) == with_bit(with_bits(x, 0, 3, s), 8, t))
        by (bit_vector)
        requires
            s <= 7,
    ;
    assert(with_bits(with_bits(x, 13, 15, d), 0, 3, s) == with_bits(with_bits(x, 0, 3, s), 13, 15, d))
        by (bit_vector)
        requires
            d <= 3,
            s <= 7,
    ;
}


} // verus!
