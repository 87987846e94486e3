use shim_sev::addr::accepted_by_virt_addr;
use shim_sev::entry::{EnarxHandlerFunc, Entry};
use shim_sev::options::{EntryOptions, PrivilegeLevel};
use shim_sev::table::{
    InterruptDescriptorTable, DIVIDE_ERROR_VECTOR, DOUBLE_FAULT_VECTOR, FIRST_INTERRUPT_VECTOR,
    PAGE_FAULT_VECTOR, SECURITY_EXCEPTION_VECTOR, VMM_COMMUNICATION_EXCEPTION_VECTOR,
};

fn missing() -> Entry<EnarxHandlerFunc> {
    Entry::missing()
}

fn assert_missing(e: &Entry<EnarxHandlerFunc>) {
    assert_eq!(e.handler_addr(), 0);
    assert_eq!(e.gdt_selector(), 0);
    assert_eq!(e.options().bits(), 0x0e00);
}

#[test]
fn missing_entry_has_only_must_be_one_bits() {
    let e = missing();
    assert_missing(&e);
}

#[test]
fn minimal_options_word() {
    assert_eq!(EntryOptions::minimal().bits(), 0b1110_0000_0000);
}

#[test]
fn new_table_is_all_missing() {
    let t = InterruptDescriptorTable::new();
    for v in 0..=255u8 {
        assert_missing(&t.vector_entry(v));
    }
    assert_missing(&t.divide_error);
    assert_missing(&t.page_fault);
    assert_missing(&t.security_exception);
}

#[test]
fn named_fields_sit_at_their_vectors() {
    let mut t = InterruptDescriptorTable::new();
    t.divide_error.set_handler_addr(0x1000, 8);
    t.double_fault.set_handler_addr(0x2000, 8);
    t.page_fault.set_handler_addr(0x3000, 8);
    t.virtualization.set_handler_addr(0x4000, 8);
    t.vmm_communication_exception.set_handler_addr(0x5000, 8);
    t.security_exception.set_handler_addr(0x6000, 8);
    assert_eq!(t.vector_entry(0).handler_addr(), 0x1000);
    assert_eq!(t.vector_entry(8).handler_addr(), 0x2000);
    assert_eq!(t.vector_entry(14).handler_addr(), 0x3000);
    assert_eq!(t.vector_entry(20).handler_addr(), 0x4000);
    assert_eq!(t.vector_entry(29).handler_addr(), 0x5000);
    assert_eq!(t.vector_entry(30).handler_addr(), 0x6000);
    for v in [1u8, 9, 13, 15, 21, 28, 31, 32, 255] {
        assert_missing(&t.vector_entry(v));
    }
}

#[test]
fn reset_restores_a_new_table() {
    let mut t = InterruptDescriptorTable::new();
    t.breakpoint.set_handler_addr(0xdead_beef, 0x10).set_privilege_level(PrivilegeLevel::Ring3);
    t.general_protection_fault.set_handler_fn(0x4242, 0x10);
    assert_eq!(t.vector_entry(3).handler_addr(), 0xdead_beef);
    t.reset();
    let fresh = InterruptDescriptorTable::new();
    for v in 0..=255u8 {
        assert_missing(&t.vector_entry(v));
        assert_eq!(t.vector_entry(v).options().bits(), fresh.vector_entry(v).options().bits());
    }
}

#[test]
fn set_handler_addr_splits_and_reads_back() {
    let mut e = missing();
    let opts = e.set_handler_addr(0xffff_8000_1234_5678, 0x28);
    assert_eq!(opts.bits(), 0x8e00);
    assert_eq!(e.handler_addr(), 0xffff_8000_1234_5678);
    assert_eq!(e.gdt_selector(), 0x28);
    assert_eq!(e.options().bits(), 0x8e00);
}

#[test]
fn set_handler_addr_keeps_other_option_bits() {
    let mut e = missing();
    e.set_handler_addr(0x10, 1).set_privilege_level(PrivilegeLevel::Ring2).disable_interrupts(false);
    assert_eq!(e.options().bits(), 0xcf00);
    e.set_handler_addr(0x20, 2);
    assert_eq!(e.options().bits(), 0xcf00);
    assert_eq!(e.handler_addr(), 0x20);
    assert_eq!(e.gdt_selector(), 2);
}

#[test]
fn set_handler_fn_keeps_canonical_address() {
    let mut e = missing();
    e.set_handler_fn(0x0000_7fff_ffff_f000, 8);
    assert_eq!(e.handler_addr(), 0x0000_7fff_ffff_f000);
    e.set_handler_fn(0xffff_ffff_8000_0000, 8);
    assert_eq!(e.handler_addr(), 0xffff_ffff_8000_0000);
    assert_eq!(e.options().bits(), 0x8e00);
}

#[test]
fn set_handler_fn_sign_extends_bit_47() {
    let mut e = missing();
    e.set_handler_fn(0x0000_8000_0000_1000, 8);
    assert_eq!(e.handler_addr(), 0xffff_8000_0000_1000);
}

#[test]
fn set_present_sets_and_clears_bit_15() {
    let mut o = EntryOptions::minimal();
    o.set_present(true);
    assert_eq!(o.bits(), 0x8e00);
    o.set_present(true);
    assert_eq!(o.bits(), 0x8e00);
    o.set_present(false);
    assert_eq!(o.bits(), 0x0e00);
}

#[test]
fn disable_interrupts_toggles_gate_type() {
    let mut o = EntryOptions::minimal();
    o.disable_interrupts(false);
    assert_eq!(o.bits(), 0x0f00);
    o.disable_interrupts(true);
    assert_eq!(o.bits(), 0x0e00);
}

#[test]
fn set_privilege_level_writes_bits_13_and_14() {
    let mut o = EntryOptions::minimal();
    o.set_privilege_level(PrivilegeLevel::Ring3);
    assert_eq!(o.bits(), 0x6e00);
    o.set_privilege_level(PrivilegeLevel::Ring1);
    assert_eq!(o.bits(), 0x2e00);
    o.set_privilege_level(PrivilegeLevel::Ring2);
    assert_eq!(o.bits(), 0x4e00);
    o.set_privilege_level(PrivilegeLevel::Ring0);
    assert_eq!(o.bits(), 0x0e00);
}

#[test]
fn set_stack_index_stores_index_plus_one() {
    let mut o = EntryOptions::minimal();
    o.set_stack_index(0);
    assert_eq!(o.bits(), 0x0e01);
    o.set_stack_index(6);
    assert_eq!(o.bits(), 0x0e07);
    o.set_stack_index(2);
    assert_eq!(o.bits(), 0x0e03);
}

#[test]
fn setters_commute_on_separate_fields() {
    let mut a = EntryOptions::minimal();
    a.set_present(true).set_privilege_level(PrivilegeLevel::Ring3).set_stack_index(1).disable_interrupts(false);
    let mut b = EntryOptions::minimal();
    b.disable_interrupts(false).set_stack_index(1).set_privilege_level(PrivilegeLevel::Ring3).set_present(true);
    assert_eq!(a.bits(), b.bits());
    assert_eq!(a.bits(), 0xef02);
}

#[test]
fn privilege_level_numbers() {
    assert_eq!(PrivilegeLevel::Ring0.as_u16(), 0);
    assert_eq!(PrivilegeLevel::Ring1.as_u16(), 1);
    assert_eq!(PrivilegeLevel::Ring2.as_u16(), 2);
    assert_eq!(PrivilegeLevel::Ring3.as_u16(), 3);
}

#[test]
fn entry_copy_is_independent() {
    let mut e = missing();
    let copy = e;
    e.set_handler_addr(0x99, 3);
    assert_missing(&copy);
    assert_eq!(e.clone().handler_addr(), 0x99);
}

#[test]
fn virt_addr_inputs() {
    assert!(accepted_by_virt_addr(0));
    assert!(accepted_by_virt_addr(0x0000_7fff_ffff_ffff));
    assert!(accepted_by_virt_addr(0x0000_8000_0000_0000));
    assert!(accepted_by_virt_addr(0x0000_ffff_ffff_ffff));
    assert!(!accepted_by_virt_addr(0x0001_0000_0000_0000));
    assert!(!accepted_by_virt_addr(0xffff_7fff_ffff_ffff));
    assert!(accepted_by_virt_addr(0xffff_8000_0000_0000));
    assert!(accepted_by_virt_addr(u64::MAX));
}

#[test]
fn options_compare_by_word() {
    let mut a = EntryOptions::minimal();
    let b = EntryOptions::minimal();
    assert!(a == b);
    a.set_present(true);
    assert!(a != b);
    a.set_present(false);
    assert!(a == b);
}

#[test]
fn table_clone_is_independent() {
    let mut t = InterruptDescriptorTable::new();
    t.page_fault.set_handler_addr(0x5000, 8);
    let copy = t.clone();
    t.reset();
    assert_eq!(copy.vector_entry(14).handler_addr(), 0x5000);
    assert_missing(&t.vector_entry(14));
}

#[test]
fn missing_entry_reads_as_not_present() {
    let e = missing();
    assert_eq!(e.options().bits() & 0x8000, 0);
    assert_eq!(e.options().bits() & 0x0100, 0);
    assert_eq!(e.options().bits() & 0x6000, 0);
    assert_eq!(e.options().bits() & 0x0007, 0);
}

#[test]
fn set_entry_replaces_one_vector() {
    let mut t = InterruptDescriptorTable::new();
    let mut e = missing();
    e.set_handler_addr(0x7000, 8).set_privilege_level(PrivilegeLevel::Ring3);
    t.set_entry(14, e);
    t.set_entry(25, e);
    t.set_entry(200, e);
    assert_eq!(t.page_fault.handler_addr(), 0x7000);
    for v in [14u8, 25, 200] {
        assert_eq!(t.vector_entry(v).handler_addr(), 0x7000);
        assert_eq!(t.vector_entry(v).options().bits(), 0xee00);
        assert_eq!(t.vector_entry(v).gdt_selector(), 8);
    }
    for v in [0u8, 13, 15, 24, 26, 199, 201, 255] {
        assert_missing(&t.vector_entry(v));
    }
}

#[test]
fn vector_constants_match_named_fields() {
    let mut t = InterruptDescriptorTable::new();
    t.divide_error.set_handler_addr(0x100, 8);
    t.double_fault.set_handler_addr(0x200, 8);
    t.page_fault.set_handler_addr(0x300, 8);
    t.vmm_communication_exception.set_handler_addr(0x400, 8);
    t.security_exception.set_handler_addr(0x500, 8);
    assert_eq!(t.vector_entry(DIVIDE_ERROR_VECTOR).handler_addr(), 0x100);
    assert_eq!(t.vector_entry(DOUBLE_FAULT_VECTOR).handler_addr(), 0x200);
    assert_eq!(t.vector_entry(PAGE_FAULT_VECTOR).handler_addr(), 0x300);
    assert_eq!(t.vector_entry(VMM_COMMUNICATION_EXCEPTION_VECTOR).handler_addr(), 0x400);
    assert_eq!(t.vector_entry(SECURITY_EXCEPTION_VECTOR).handler_addr(), 0x500);
    assert_eq!(FIRST_INTERRUPT_VECTOR, 32);
}

#[test]
fn descriptor_fields_split_the_address() {
    let mut e = missing();
    e.set_handler_addr(0xffff_8123_4567_89ab, 0x28).disable_interrupts(false);
    assert_eq!(e.descriptor_fields(), (0x89ab, 0x28, 0x8f00, 0x4567, 0xffff_8123, 0));
    assert_eq!(missing().descriptor_fields(), (0, 0, 0x0e00, 0, 0, 0));
}
