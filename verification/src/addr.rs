//! Canonical 64-bit virtual addresses, made through `x86_64::VirtAddr`.

use vstd::prelude::*;
use x86_64::VirtAddr;

verus! {

/// The address is canonical: bits 47..64 are all clear or all set.
pub open spec fn is_canonical(addr: u64) -> bool {
    addr < 0x0000_8000_0000_0000u64 || addr >= 0xffff_8000_0000_0000u64
}

/// `VirtAddr::new` accepts the address: it is canonical, or only bit 47 of bits
/// 47..64 is set, so that sign extension makes it canonical.
pub open spec fn is_virt_addr_input(addr: u64) -> bool {
    addr < 0x0001_0000_0000_0000u64 || addr >= 0xffff_8000_0000_0000u64
}

/// The address with bit 47 copied into bits 48..64 when they are clear and bit 47
/// is set; any other address unchanged.
pub open spec fn sign_extended(addr: u64) -> u64 {
    if 0x0000_8000_0000_0000u64 <= addr < 0x0001_0000_0000_0000u64 {
        (addr + 0xffff_0000_0000_0000u64) as u64
    } else {
        addr
    }
}

/// Whether `VirtAddr::new` accepts the address (see `is_virt_addr_input`).
pub fn accepted_by_virt_addr(addr: u64) -> (r: bool)
    ensures
        r == is_virt_addr_input(addr),
{
    addr < 0x0001_0000_0000_0000u64 || addr >= 0xffff_8000_0000_0000u64
}

/// Calls `VirtAddr::new` and reads the address back with `VirtAddr::as_u64`: a
/// canonical address comes back unchanged, and one whose bits 48..64 are clear
/// while bit 47 is set comes back sign-extended. `VirtAddr::new` panics on any
/// other address, which `requires` rules out.
#[verifier::external_body]
pub(crate) fn virt_addr_new(addr: u64) -> (r: u64)
    requires
        is_virt_addr_input(addr),
    ensures
        r == sign_extended(addr),
{
    VirtAddr::new(addr).as_u64()
}

/// What `VirtAddr::new` gives back is canonical, and a canonical address comes
/// back unchanged.
pub proof fn lemma_sign_extended_is_canonical(addr: u64)
    requires
        is_virt_addr_input(addr),
    ensures
        is_canonical(sign_extended(addr)),
        is_canonical(addr) ==> sign_extended(addr) == addr,
{
}

} // verus!
