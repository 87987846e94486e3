//! A single Interrupt Descriptor Table entry.

use core::marker::PhantomData;
use vstd::prelude::*;
use crate::addr::{is_canonical, is_virt_addr_input, lemma_sign_extended_is_canonical, sign_extended, virt_addr_new};
use crate::bits::with_bit;
use crate::options::{EntryOptions, MINIMAL_OPTIONS, PRESENT_MASK};

verus! {

/// Stands for the type of the handler functions that this table's entries point
/// to: naked functions that never return. The library only stores their
/// addresses, so the type appears here as a marker.
#[derive(Clone, Copy)]
pub struct EnarxHandlerFunc;

/// The contents of an IDT entry, field by field.
pub struct EntryView {
    pub pointer_low: u16,
    pub gdt_selector: u16,
    pub options: EntryOptions,
    pub pointer_middle: u16,
    pub pointer_high: u32,
    pub reserved: u32,
}

impl EntryView {
    /// The handler address that the three pointer fields hold together.
    pub open spec fn handler_addr(self) -> u64 {
        (self.pointer_low as u64) | ((self.pointer_middle as u64) << 16u64) | ((
        self.pointer_high as u64) << 32u64)
    }

    /// A non-present entry with only the must-be-one option bits set.
    pub open spec fn missing() -> EntryView {
        EntryView {
            pointer_low: 0,
            gdt_selector: 0,
            options: EntryOptions::spec_from_bits(MINIMAL_OPTIONS),
            pointer_middle: 0,
            pointer_high: 0,
            reserved: 0,
        }
    }

    /// The entry with its handler address split into the pointer fields, the given
    /// code segment selector and options, and its reserved field kept.
    pub open spec fn with_handler(self, addr: u64, gdt_selector: u16, options: EntryOptions) -> EntryView {
        EntryView {
            pointer_low: addr as u16,
            gdt_selector: gdt_selector,
            options: options,
            pointer_middle: (addr >> 16u64) as u16,
            pointer_high: (addr >> 32u64) as u32,
            reserved: self.reserved,
        }
    }

    /// The options are well formed and the reserved field is zero.
    pub open spec fn wf(self) -> bool {
        self.options.wf() && self.reserved == 0
    }
}

/// An Interrupt Descriptor Table entry.
///
/// The generic parameter stands for the type of handler function of the vector.
pub struct Entry<F> {
    pointer_low: u16,
    gdt_selector: u16,
    options: EntryOptions,
    pointer_middle: u16,
    pointer_high: u32,
    reserved: u32,
    phantom: PhantomData<F>,
}

impl<F> Clone for Entry<F> {
    fn clone(&self) -> (r: Self)
        ensures
            r == *self,
    {
        *self
    }
}

impl<F> Copy for Entry<F> {
}

impl<F> View for Entry<F> {
    type V = EntryView;

    closed spec fn view(&self) -> EntryView {
        EntryView {
            pointer_low: self.pointer_low,
            gdt_selector: self.gdt_selector,
            options: self.options,
            pointer_middle: self.pointer_middle,
            pointer_high: self.pointer_high,
            reserved: self.reserved,
        }
    }
}

/// Writing a handler address into an entry and reading it back gives the
/// address: splitting it into the three pointer fields loses nothing.
pub proof fn lemma_handler_addr_roundtrip(
    v: EntryView,
    addr: u64,
    gdt_selector: u16,
    options: EntryOptions,
)
    ensures
        v.with_handler(addr, gdt_selector, options).handler_addr() == addr,
{
    assert(((addr as u16) as u64) | ((((addr >> 16u64) as u16) as u64) << 16u64) | ((((addr
        >> 32u64) as u32) as u64) << 32u64) == addr) by (bit_vector);
}

/// The handler address an entry holds is its low 16 pointer bits, plus its middle
/// 16 bits times 2^16, plus its high 32 bits times 2^32: the CPU's layout.
pub proof fn lemma_handler_addr_layout(v: EntryView)
    ensures
        v.handler_addr() == v.pointer_low + v.pointer_middle * 0x1_0000 + v.pointer_high
            * 0x1_0000_0000,
{
    let l = v.pointer_low;
    let m = v.pointer_middle;
    let h = v.pointer_high;
    assert((l as u64) | ((m as u64) << 16u64) | ((h as u64) << 32u64) == l + m * 0x1_0000 + h
        * 0x1_0000_0000) by (bit_vector);
}

/// Writing a handler address puts its bits 0..16 in the low pointer field, bits
/// 16..32 in the middle one and bits 32..64 in the high one, as the CPU reads them.
pub proof fn lemma_with_handler_layout(
    v: EntryView,
    addr: u64,
    gdt_selector: u16,
    options: EntryOptions,
)
    ensures
        v.with_handler(addr, gdt_selector, options).pointer_low == addr % 0x1_0000,
        v.with_handler(addr, gdt_selector, options).pointer_middle == (addr / 0x1_0000)
            % 0x1_0000,
        v.with_handler(addr, gdt_selector, options).pointer_high == addr / 0x1_0000_0000,
{
    assert((addr as u16) == addr % 0x1_0000 && ((addr >> 16u64) as u16) == (addr / 0x1_0000)
        % 0x1_0000 && ((addr >> 32u64) as u32) == addr / 0x1_0000_0000) by (bit_vector);
}

impl<F> Entry<F> {
    /// Creates a non-present IDT entry (but sets the must-be-one bits).
    pub fn missing() -> (r: Self)
        ensures
            r@ == EntryView::missing(),
            r@.wf(),
            !r@.options.present(),
            r@.handler_addr() == 0,
    {
        let r = Entry {
            gdt_selector: 0,
            pointer_low: 0,
            pointer_middle: 0,
            pointer_high: 0,
            options: EntryOptions::minimal(),
            reserved: 0,
            phantom: PhantomData,
        };
        proof {
            EntryOptions::lemma_from_bits(r.options);
            assert((0u16 as u64) | ((0u16 as u64) << 16u64) | ((0u32 as u64) << 32u64) == 0)
                by (bit_vector);
        }
        r
    }

    /// Set the handler address for the IDT entry and sets the present bit.
    ///
    /// `addr` is the handler's canonical virtual address and `code_selector` the code
    /// segment selector that the handler runs with, such as the one currently active
    /// in the CPU.
    ///
    /// The function returns a mutable reference to the entry's options that allows
    /// further customization.
    pub fn set_handler_addr(&mut self, addr: u64, code_selector: u16) -> (r: &mut EntryOptions)
        requires
            is_canonical(addr),
        ensures
            (*r)@ == with_bit(old(self)@.options@, 15, true),
            (*r).present(),
            (*r)@ & !PRESENT_MASK == old(self)@.options@ & !PRESENT_MASK,
            old(self)@.options.wf() ==> (*r).wf(),
            final(self)@ == old(self)@.with_handler(addr, code_selector, *final(r)),
            final(self)@.handler_addr() == addr,
            final(self)@.pointer_low == addr % 0x1_0000,
            final(self)@.pointer_middle == (addr / 0x1_0000) % 0x1_0000,
            final(self)@.pointer_high == addr / 0x1_0000_0000,
            final(self)@.gdt_selector == code_selector,
    {
        self.pointer_low = addr as u16;
        self.pointer_middle = (addr >> 16) as u16;
        self.pointer_high = (addr >> 32) as u32;
        self.gdt_selector = code_selector;
        self.options.set_present(true);
        proof {
            lemma_handler_addr_roundtrip(old(self)@, addr, code_selector, self.options);
            lemma_with_handler_layout(old(self)@, addr, code_selector, self.options);
        }
        &mut self.options
    }

    /// The handler address that the entry holds.
    pub fn handler_addr(&self) -> (r: u64)
        ensures
            r == self@.handler_addr(),
            r == self@.pointer_low + self@.pointer_middle * 0x1_0000 + self@.pointer_high
                * 0x1_0000_0000,
    {
        proof {
            lemma_handler_addr_layout(self@);
        }
        self.pointer_low as u64 | (self.pointer_middle as u64) << 16 | (self.pointer_high as u64)
            << 32
    }

    /// The entry's raw descriptor fields, in the order the CPU reads them:
    /// pointer bits 0..16, code segment selector, options word, pointer bits 16..32,
    /// pointer bits 32..64 and the reserved word.
    pub fn descriptor_fields(&self) -> (r: (u16, u16, u16, u16, u32, u32))
        ensures
            r.0 == self@.pointer_low,
            r.1 == self@.gdt_selector,
            r.2 == self@.options@,
            r.3 == self@.pointer_middle,
            r.4 == self@.pointer_high,
            r.5 == self@.reserved,
    {
        (
            self.pointer_low,
            self.gdt_selector,
            self.options.bits(),
            self.pointer_middle,
            self.pointer_high,
            self.reserved,
        )
    }

    /// The code segment selector that the handler runs with.
    pub fn gdt_selector(&self) -> (r: u16)
        ensures
            r == self@.gdt_selector,
    {
        self.gdt_selector
    }

    /// The entry's options.
    pub fn options(&self) -> (r: EntryOptions)
        ensures
            r == self@.options,
    {
        self.options
    }
}

impl Entry<EnarxHandlerFunc> {
    /// Set the handler function for the IDT entry and sets the present bit.
    ///
    /// `handler` is the address of the handler function, which is made a virtual
    /// address as `VirtAddr::new` does it; `code_selector` is the code segment
    /// selector that the handler runs with, such as the one currently active in the
    /// CPU.
    ///
    /// The function returns a mutable reference to the entry's options that allows
    /// further customization.
    pub fn set_handler_fn(&mut self, handler: u64, code_selector: u16) -> (r: &mut EntryOptions)
        requires
            is_virt_addr_input(handler),
        ensures
            (*r)@ == with_bit(old(self)@.options@, 15, true),
            (*r).present(),
            (*r)@ & !PRESENT_MASK == old(self)@.options@ & !PRESENT_MASK,
            old(self)@.options.wf() ==> (*r).wf(),
            final(self)@ == old(self)@.with_handler(sign_extended(handler), code_selector, *final(r)),
            final(self)@.handler_addr() == sign_extended(handler),
            is_canonical(handler) ==> final(self)@.handler_addr() == handler,
            final(self)@.pointer_low == sign_extended(handler) % 0x1_0000,
            final(self)@.pointer_middle == (sign_extended(handler) / 0x1_0000) % 0x1_0000,
            final(self)@.pointer_high == sign_extended(handler) / 0x1_0000_0000,
            final(self)@.gdt_selector == code_selector,
    {
        let addr = virt_addr_new(handler);
        proof {
            lemma_sign_extended_is_canonical(handler);
        }
        self.set_handler_addr(addr, code_selector)
    }
}

} // verus!
