//! The Interrupt Descriptor Table: 256 entries, one for each interrupt vector.

use vstd::prelude::*;
use crate::entry::{EnarxHandlerFunc, Entry, EntryView};

verus! {

/// The vector number of the `divide_error` entry.
pub const DIVIDE_ERROR_VECTOR: u8 = 0;

/// The vector number of the `debug` entry.
pub const DEBUG_VECTOR: u8 = 1;

/// The vector number of the `non_maskable_interrupt` entry.
pub const NON_MASKABLE_INTERRUPT_VECTOR: u8 = 2;

/// The vector number of the `breakpoint` entry.
pub const BREAKPOINT_VECTOR: u8 = 3;

/// The vector number of the `overflow` entry.
pub const OVERFLOW_VECTOR: u8 = 4;

/// The vector number of the `bound_range_exceeded` entry.
pub const BOUND_RANGE_EXCEEDED_VECTOR: u8 = 5;

/// The vector number of the `invalid_opcode` entry.
pub const INVALID_OPCODE_VECTOR: u8 = 6;

/// The vector number of the `device_not_available` entry.
pub const DEVICE_NOT_AVAILABLE_VECTOR: u8 = 7;

/// The vector number of the `double_fault` entry.
pub const DOUBLE_FAULT_VECTOR: u8 = 8;

/// The vector number of the `invalid_tss` entry.
pub const INVALID_TSS_VECTOR: u8 = 10;

/// The vector number of the `segment_not_present` entry.
pub const SEGMENT_NOT_PRESENT_VECTOR: u8 = 11;

/// The vector number of the `stack_segment_fault` entry.
pub const STACK_SEGMENT_FAULT_VECTOR: u8 = 12;

/// The vector number of the `general_protection_fault` entry.
pub const GENERAL_PROTECTION_FAULT_VECTOR: u8 = 13;

/// The vector number of the `page_fault` entry.
pub const PAGE_FAULT_VECTOR: u8 = 14;

/// The vector number of the `x87_floating_point` entry.
pub const X87_FLOATING_POINT_VECTOR: u8 = 16;

/// The vector number of the `alignment_check` entry.
pub const ALIGNMENT_CHECK_VECTOR: u8 = 17;

/// The vector number of the `machine_check` entry.
pub const MACHINE_CHECK_VECTOR: u8 = 18;

/// The vector number of the `simd_floating_point` entry.
pub const SIMD_FLOATING_POINT_VECTOR: u8 = 19;

/// The vector number of the `virtualization` entry.
pub const VIRTUALIZATION_VECTOR: u8 = 20;

/// The vector number of the `vmm_communication_exception` entry.
pub const VMM_COMMUNICATION_EXCEPTION_VECTOR: u8 = 29;

/// The vector number of the `security_exception` entry.
pub const SECURITY_EXCEPTION_VECTOR: u8 = 30;

/// The first vector of the user-defined interrupts (they run up to 255).
pub const FIRST_INTERRUPT_VECTOR: u8 = 32;

/// An Interrupt Descriptor Table with 256 entries.
///
/// The first 32 entries are used for CPU exceptions and are fields named after
/// them; vectors 21 to 28 and the other reserved vectors are private. The
/// remaining entries, vectors 32 to 255, are used for interrupts.
pub struct InterruptDescriptorTable {
    /// Vector 0: divide error (`#DE`), a DIV or IDIV with a zero denominator or a
    /// quotient too large for the destination.
    pub divide_error: Entry<EnarxHandlerFunc>,
    /// Vector 1: debug exception (`#DB`).
    pub debug: Entry<EnarxHandlerFunc>,
    /// Vector 2: non-maskable interrupt (NMI).
    pub non_maskable_interrupt: Entry<EnarxHandlerFunc>,
    /// Vector 3: breakpoint (`#BP`), raised by `INT3`.
    pub breakpoint: Entry<EnarxHandlerFunc>,
    /// Vector 4: overflow (`#OF`), raised by `INTO` while the overflow flag is set.
    pub overflow: Entry<EnarxHandlerFunc>,
    /// Vector 5: bound-range exception (`#BR`), raised by `BOUND`.
    pub bound_range_exceeded: Entry<EnarxHandlerFunc>,
    /// Vector 6: invalid opcode (`#UD`).
    pub invalid_opcode: Entry<EnarxHandlerFunc>,
    /// Vector 7: device not available (`#NM`).
    pub device_not_available: Entry<EnarxHandlerFunc>,
    /// Vector 8: double fault (`#DF`); its error code is always zero.
    pub double_fault: Entry<EnarxHandlerFunc>,
    /// Vector 9: reserved (formerly the coprocessor segment overrun).
    coprocessor_segment_overrun: Entry<EnarxHandlerFunc>,
    /// Vector 10: invalid TSS (`#TS`); the error code is the `SS` selector.
    pub invalid_tss: Entry<EnarxHandlerFunc>,
    /// Vector 11: segment not present (`#NP`).
    pub segment_not_present: Entry<EnarxHandlerFunc>,
    /// Vector 12: stack segment fault (`#SS`).
    pub stack_segment_fault: Entry<EnarxHandlerFunc>,
    /// Vector 13: general protection fault (`#GP`).
    pub general_protection_fault: Entry<EnarxHandlerFunc>,
    /// Vector 14: page fault (`#PF`); the faulting address is in `CR2`.
    pub page_fault: Entry<EnarxHandlerFunc>,
    /// Vector 15: reserved.
    reserved_1: Entry<EnarxHandlerFunc>,
    /// Vector 16: x87 floating-point exception pending (`#MF`).
    pub x87_floating_point: Entry<EnarxHandlerFunc>,
    /// Vector 17: alignment check (`#AC`); the error code is always zero.
    pub alignment_check: Entry<EnarxHandlerFunc>,
    /// Vector 18: machine check (`#MC`).
    pub machine_check: Entry<EnarxHandlerFunc>,
    /// Vector 19: SIMD floating-point exception (`#XF`).
    pub simd_floating_point: Entry<EnarxHandlerFunc>,
    /// Vector 20: virtualization exception.
    pub virtualization: Entry<EnarxHandlerFunc>,
    /// Vectors 21 to 28: reserved.
    reserved_2: [Entry<EnarxHandlerFunc>; 8],
    /// Vector 29: VMM communication exception (`#VC`), raised for an SEV-ES guest
    /// when a non-automatic exit event occurs; the error code is the `#VMEXIT` code.
    pub vmm_communication_exception: Entry<EnarxHandlerFunc>,
    /// Vector 30: security exception (`#SX`).
    pub security_exception: Entry<EnarxHandlerFunc>,
    /// Vector 31: reserved.
    reserved_3: Entry<EnarxHandlerFunc>,
    /// Vectors 32 to 255: user-defined interrupts.
    interrupts: [Entry<EnarxHandlerFunc>; 224],
}

/// Every one of the 256 entries is non-present, with only the must-be-one
/// option bits set.
pub open spec fn missing_table() -> Seq<EntryView> {
    Seq::new(256, |i: int| EntryView::missing())
}

impl InterruptDescriptorTable {
    /// The entry for interrupt vector `vector` (0 to 255).
    closed spec fn entry(self, vector: int) -> Entry<EnarxHandlerFunc> {
        if vector == 0 {
            self.divide_error
        } else if vector == 1 {
            self.debug
        } else if vector == 2 {
            self.non_maskable_interrupt
        } else if vector == 3 {
            self.breakpoint
        } else if vector == 4 {
            self.overflow
        } else if vector == 5 {
            self.bound_range_exceeded
        } else if vector == 6 {
            self.invalid_opcode
        } else if vector == 7 {
            self.device_not_available
        } else if vector == 8 {
            self.double_fault
        } else if vector == 9 {
            self.coprocessor_segment_overrun
        } else if vector == 10 {
            self.invalid_tss
        } else if vector == 11 {
            self.segment_not_present
        } else if vector == 12 {
            self.stack_segment_fault
        } else if vector == 13 {
            self.general_protection_fault
        } else if vector == 14 {
            self.page_fault
        } else if vector == 15 {
            self.reserved_1
        } else if vector == 16 {
            self.x87_floating_point
        } else if vector == 17 {
            self.alignment_check
        } else if vector == 18 {
            self.machine_check
        } else if vector == 19 {
            self.simd_floating_point
        } else if vector == 20 {
            self.virtualization
        } else if vector < 29 {
            self.reserved_2[vector - 21]
        } else if vector == 29 {
            self.vmm_communication_exception
        } else if vector == 30 {
            self.security_exception
        } else if vector == 31 {
            self.reserved_3
        } else {
            self.interrupts[vector - 32]
        }
    }
}

impl Clone for InterruptDescriptorTable {
    fn clone(&self) -> (r: Self)
        ensures
            r@ == self@,
    {
        let r = InterruptDescriptorTable {
            divide_error: self.divide_error,
            debug: self.debug,
            non_maskable_interrupt: self.non_maskable_interrupt,
            breakpoint: self.breakpoint,
            overflow: self.overflow,
            bound_range_exceeded: self.bound_range_exceeded,
            invalid_opcode: self.invalid_opcode,
            device_not_available: self.device_not_available,
            double_fault: self.double_fault,
            coprocessor_segment_overrun: self.coprocessor_segment_overrun,
            invalid_tss: self.invalid_tss,
            segment_not_present: self.segment_not_present,
            stack_segment_fault: self.stack_segment_fault,
            general_protection_fault: self.general_protection_fault,
            page_fault: self.page_fault,
            reserved_1: self.reserved_1,
            x87_floating_point: self.x87_floating_point,
            alignment_check: self.alignment_check,
            machine_check: self.machine_check,
            simd_floating_point: self.simd_floating_point,
            virtualization: self.virtualization,
            reserved_2: self.reserved_2,
            vmm_communication_exception: self.vmm_communication_exception,
            security_exception: self.security_exception,
            reserved_3: self.reserved_3,
            interrupts: self.interrupts,
        };
        assert(r@ =~= self@);
        r
    }
}

impl View for InterruptDescriptorTable {
    type V = Seq<EntryView>;

    /// The 256 entries in vector order.
    closed spec fn view(&self) -> Seq<EntryView> {
        Seq::new(256, |i: int| self.entry(i)@)
    }
}

impl InterruptDescriptorTable {
    /// Creates a new IDT filled with non-present entries.
    pub fn new() -> (r: InterruptDescriptorTable)
        ensures
            r@ == missing_table(),
            r@.len() == 256,
            forall|i: int| 0 <= i < 256 ==> #[trigger] r@[i] == EntryView::missing(),
    {
        let r = InterruptDescriptorTable {
            divide_error: Entry::missing(),
            debug: Entry::missing(),
            non_maskable_interrupt: Entry::missing(),
            breakpoint: Entry::missing(),
            overflow: Entry::missing(),
            bound_range_exceeded: Entry::missing(),
            invalid_opcode: Entry::missing(),
            device_not_available: Entry::missing(),
            double_fault: Entry::missing(),
            coprocessor_segment_overrun: Entry::missing(),
            invalid_tss: Entry::missing(),
            segment_not_present: Entry::missing(),
            stack_segment_fault: Entry::missing(),
            general_protection_fault: Entry::missing(),
            page_fault: Entry::missing(),
            reserved_1: Entry::missing(),
            x87_floating_point: Entry::missing(),
            alignment_check: Entry::missing(),
            machine_check: Entry::missing(),
            simd_floating_point: Entry::missing(),
            virtualization: Entry::missing(),
            reserved_2: [Entry::missing(); 8],
            vmm_communication_exception: Entry::missing(),
            security_exception: Entry::missing(),
            reserved_3: Entry::missing(),
            interrupts: [Entry::missing(); 224],
        };
        assert(r@ =~= missing_table());
        r
    }

    /// The entry for interrupt vector `vector`.
    pub fn vector_entry(&self, vector: u8) -> (r: Entry<EnarxHandlerFunc>)
        ensures
            r@ == self@[vector as int],
    {
        if vector == 0 {
            self.divide_error
        } else if vector == 1 {
            self.debug
        } else if vector == 2 {
            self.non_maskable_interrupt
        } else if vector == 3 {
            self.breakpoint
        } else if vector == 4 {
            self.overflow
        } else if vector == 5 {
            self.bound_range_exceeded
        } else if vector == 6 {
            self.invalid_opcode
        } else if vector == 7 {
            self.device_not_available
        } else if vector == 8 {
            self.double_fault
        } else if vector == 9 {
            self.coprocessor_segment_overrun
        } else if vector == 10 {
            self.invalid_tss
        } else if vector == 11 {
            self.segment_not_present
        } else if vector == 12 {
            self.stack_segment_fault
        } else if vector == 13 {
            self.general_protection_fault
        } else if vector == 14 {
            self.page_fault
        } else if vector == 15 {
            self.reserved_1
        } else if vector == 16 {
            self.x87_floating_point
        } else if vector == 17 {
            self.alignment_check
        } else if vector == 18 {
            self.machine_check
        } else if vector == 19 {
            self.simd_floating_point
        } else if vector == 20 {
            self.virtualization
        } else if vector < 29 {
            self.reserved_2[(vector - 21) as usize]
        } else if vector == 29 {
            self.vmm_communication_exception
        } else if vector == 30 {
            self.security_exception
        } else if vector == 31 {
            self.reserved_3
        } else {
            self.interrupts[(vector - 32) as usize]
        }
    }

    /// Replaces the entry for interrupt vector `vector` with `entry`; every other
    /// entry stays as it was.
    pub fn set_entry(&mut self, vector: u8, entry: Entry<EnarxHandlerFunc>)
        ensures
            final(self)@ == old(self)@.update(vector as int, entry@),
    {
        if vector == 0 {
            self.divide_error = entry;
        } else if vector == 1 {
            self.debug = entry;
        } else if vector == 2 {
            self.non_maskable_interrupt = entry;
        } else if vector == 3 {
            self.breakpoint = entry;
        } else if vector == 4 {
            self.overflow = entry;
        } else if vector == 5 {
            self.bound_range_exceeded = entry;
        } else if vector == 6 {
            self.invalid_opcode = entry;
        } else if vector == 7 {
            self.device_not_available = entry;
        } else if vector == 8 {
            self.double_fault = entry;
        } else if vector == 9 {
            self.coprocessor_segment_overrun = entry;
        } else if vector == 10 {
            self.invalid_tss = entry;
        } else if vector == 11 {
            self.segment_not_present = entry;
        } else if vector == 12 {
            self.stack_segment_fault = entry;
        } else if vector == 13 {
            self.general_protection_fault = entry;
        } else if vector == 14 {
            self.page_fault = entry;
        } else if vector == 15 {
            self.reserved_1 = entry;
        } else if vector == 16 {
            self.x87_floating_point = entry;
        } else if vector == 17 {
            self.alignment_check = entry;
        } else if vector == 18 {
            self.machine_check = entry;
        } else if vector == 19 {
            self.simd_floating_point = entry;
        } else if vector == 20 {
            self.virtualization = entry;
        } else if vector < 29 {
            self.reserved_2[(vector - 21) as usize] = entry;
        } else if vector == 29 {
            self.vmm_communication_exception = entry;
        } else if vector == 30 {
            self.security_exception = entry;
        } else if vector == 31 {
            self.reserved_3 = entry;
        } else {
            self.interrupts[(vector - 32) as usize] = entry;
        }
        assert(self@ =~= old(self)@.update(vector as int, entry@));
    }

    /// Resets all entries of this IDT in place.
    pub fn reset(&mut self)
        ensures
            final(self)@ == missing_table(),
            forall|i: int| 0 <= i < 256 ==> #[trigger] final(self)@[i] == EntryView::missing(),
    {
        self.divide_error = Entry::missing();
        self.debug = Entry::missing();
        self.non_maskable_interrupt = Entry::missing();
        self.breakpoint = Entry::missing();
        self.overflow = Entry::missing();
        self.bound_range_exceeded = Entry::missing();
        self.invalid_opcode = Entry::missing();
        self.device_not_available = Entry::missing();
        self.double_fault = Entry::missing();
        self.coprocessor_segment_overrun = Entry::missing();
        self.invalid_tss = Entry::missing();
        self.segment_not_present = Entry::missing();
        self.stack_segment_fault = Entry::missing();
        self.general_protection_fault = Entry::missing();
        self.page_fault = Entry::missing();
        self.reserved_1 = Entry::missing();
        self.x87_floating_point = Entry::missing();
        self.alignment_check = Entry::missing();
        self.machine_check = Entry::missing();
        self.simd_floating_point = Entry::missing();
        self.virtualization = Entry::missing();
        self.reserved_2 = [Entry::missing(); 8];
        self.vmm_communication_exception = Entry::missing();
        self.security_exception = Entry::missing();
        self.reserved_3 = Entry::missing();
        self.interrupts = [Entry::missing(); 224];
        assert(self@ =~= missing_table());
    }
}

/// Each exception's entry sits at its architectural vector number: `#DE` at 0,
/// `#DB` at 1, NMI at 2, `#BP` at 3, `#OF` at 4, `#BR` at 5, `#UD` at 6, `#NM` at 7,
/// `#DF` at 8, vector 9 reserved, `#TS` at 10, `#NP` at 11, `#SS` at 12, `#GP` at 13,
/// `#PF` at 14, vector 15 reserved, `#MF` at 16, `#AC` at 17, `#MC` at 18, `#XF` at 19,
/// the virtualization exception at 20, vectors 21 to 28 reserved, `#VC` at 29, `#SX`
/// at 30, vector 31 reserved, and the interrupts at 32 to 255.
///
/// The statement names the table's fields, and a table with private fields is
/// opaque outside this module, so it stands here rather than as a public lemma.
proof fn lemma_vector_numbers(t: InterruptDescriptorTable)
    ensures
        t@.len() == 256,
        t@[DIVIDE_ERROR_VECTOR as int] == t.divide_error@,
        t@[DEBUG_VECTOR as int] == t.debug@,
        t@[NON_MASKABLE_INTERRUPT_VECTOR as int] == t.non_maskable_interrupt@,
        t@[BREAKPOINT_VECTOR as int] == t.breakpoint@,
        t@[OVERFLOW_VECTOR as int] == t.overflow@,
        t@[BOUND_RANGE_EXCEEDED_VECTOR as int] == t.bound_range_exceeded@,
        t@[INVALID_OPCODE_VECTOR as int] == t.invalid_opcode@,
        t@[DEVICE_NOT_AVAILABLE_VECTOR as int] == t.device_not_available@,
        t@[DOUBLE_FAULT_VECTOR as int] == t.double_fault@,
        t@[9] == t.coprocessor_segment_overrun@,
        t@[INVALID_TSS_VECTOR as int] == t.invalid_tss@,
        t@[SEGMENT_NOT_PRESENT_VECTOR as int] == t.segment_not_present@,
        t@[STACK_SEGMENT_FAULT_VECTOR as int] == t.stack_segment_fault@,
        t@[GENERAL_PROTECTION_FAULT_VECTOR as int] == t.general_protection_fault@,
        t@[PAGE_FAULT_VECTOR as int] == t.page_fault@,
        t@[15] == t.reserved_1@,
        t@[X87_FLOATING_POINT_VECTOR as int] == t.x87_floating_point@,
        t@[ALIGNMENT_CHECK_VECTOR as int] == t.alignment_check@,
        t@[MACHINE_CHECK_VECTOR as int] == t.machine_check@,
        t@[SIMD_FLOATING_POINT_VECTOR as int] == t.simd_floating_point@,
        t@[VIRTUALIZATION_VECTOR as int] == t.virtualization@,
        forall|i: int| 21 <= i < 29 ==> #[trigger] t@[i] == t.reserved_2@[i - 21]@,
        t@[VMM_COMMUNICATION_EXCEPTION_VECTOR as int] == t.vmm_communication_exception@,
        t@[SECURITY_EXCEPTION_VECTOR as int] == t.security_exception@,
        t@[31] == t.reserved_3@,
        forall|i: int|
            FIRST_INTERRUPT_VECTOR <= i < 256 ==> #[trigger] t@[i] == t.interrupts@[i - 32]@,
{
}

/// Resetting a table in place leaves it equal to a newly made one: every entry
/// missing.
pub proof fn lemma_reset_equals_new(reset: InterruptDescriptorTable, fresh: InterruptDescriptorTable)
    requires
        reset@ == missing_table(),
        fresh@ == missing_table(),
    ensures
        reset@ == fresh@,
        forall|i: int| 0 <= i < 256 ==> #[trigger] reset@[i] == fresh@[i],
{
}

} // verus!
