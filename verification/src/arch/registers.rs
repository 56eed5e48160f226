//! Bits of the control registers and the operations on them that come from the `x86_64` crate.

use vstd::prelude::*;
use x86_64::registers::control::{Cr0Flags, Cr4Flags};
use x86_64::VirtAddr;

verus! {

/// CR0.PE: protected mode.
pub const CR0_PROTECTED_MODE_ENABLE: u64 = 0x1;

/// CR0.NW: not write-through.
pub const CR0_NOT_WRITE_THROUGH: u64 = 0x2000_0000;

/// CR0.CD: cache disable.
pub const CR0_CACHE_DISABLE: u64 = 0x4000_0000;

/// CR0.PG: paging.
pub const CR0_PAGING: u64 = 0x8000_0000;

/// Every bit of CR0 that has a meaning.
pub const CR0_DEFINED: u64 = 0xe005_003f;

/// CR4.VMXE: VMX instructions are enabled.
pub const CR4_VIRTUAL_MACHINE_EXTENSIONS: u64 = 0x2000;

/// CR4.OSXSAVE: XSAVE and its kin are enabled.
pub const CR4_OSXSAVE: u64 = 0x4_0000;

/// Every bit of CR4 that has a meaning.
pub const CR4_DEFINED: u64 = 0x01ff_7fff;

/// EFER.SVME: SVM instructions are enabled.
pub const EFER_SECURE_VIRTUAL_MACHINE_ENABLE: u64 = 0x1000;

/// What a 64-bit value is as a virtual address: bit 47 copied into the bits above it.
pub open spec fn sign_extended(addr: u64) -> u64 {
    if addr & 0x8000_0000_0000 == 0 {
        addr & 0x7fff_ffff_ffff
    } else {
        addr | 0xffff_8000_0000_0000
    }
}

/// Whether the bits above bit 47 all equal bit 47.
pub open spec fn canonical(addr: u64) -> bool {
    addr == sign_extended(addr)
}

/// Whether a value can be taken as a virtual address: it is canonical, or the bits above
/// bit 47 are all clear, so that nothing is lost when bit 47 is copied into them.
pub open spec fn is_virt_addr(addr: u64) -> bool {
    canonical(addr) || addr <= 0xffff_ffff_ffff
}

/// A virtual address from its raw value.
///
/// Rests on `x86_64::VirtAddr::new`, read back by `as_u64`: it is claimed that the call
/// returns for every value that `is_virt_addr` admits, and that the address it makes is the
/// value with bit 47 copied into the bits above it.
#[verifier::external_body]
pub(crate) fn virt_addr(addr: u64) -> (r: u64)
    requires
        is_virt_addr(addr),
    ensures
        r == sign_extended(addr),
{
    VirtAddr::new(addr).as_u64()
}

/// The bits of a raw CR0 value that have a meaning.
///
/// Rests on `x86_64::registers::control::Cr0Flags::from_bits_truncate`: it is claimed that
/// exactly the bits of `CR0_DEFINED` are kept.
#[verifier::external_body]
pub(crate) fn cr0_truncated(raw: u64) -> (r: u64)
    ensures
        r == raw & CR0_DEFINED,
{
    Cr0Flags::from_bits_truncate(raw).bits()
}

/// The bits of a raw CR4 value that have a meaning.
///
/// Rests on `x86_64::registers::control::Cr4Flags::from_bits_truncate`: it is claimed that
/// exactly the bits of `CR4_DEFINED` are kept.
#[verifier::external_body]
pub(crate) fn cr4_truncated(raw: u64) -> (r: u64)
    ensures
        r == raw & CR4_DEFINED,
{
    Cr4Flags::from_bits_truncate(raw).bits()
}

/// A canonical address is taken as a virtual address unchanged.
pub proof fn canonical_is_virt_addr(addr: u64)
    requires
        canonical(addr),
    ensures
        is_virt_addr(addr),
        sign_extended(addr) == addr,
{
}

/// Making a virtual address always gives a canonical one.
pub proof fn virt_addr_is_canonical(addr: u64)
    ensures
        canonical(sign_extended(addr)),
{
    assert(addr & 0x8000_0000_0000 == 0 ==> (addr & 0x7fff_ffff_ffff) & 0x8000_0000_0000 == 0
        && (addr & 0x7fff_ffff_ffff) & 0x7fff_ffff_ffff == addr & 0x7fff_ffff_ffff)
        by (bit_vector);
    assert(addr & 0x8000_0000_0000 != 0 ==> (addr | 0xffff_8000_0000_0000) & 0x8000_0000_0000 != 0
        && (addr | 0xffff_8000_0000_0000) | 0xffff_8000_0000_0000 == addr | 0xffff_8000_0000_0000)
        by (bit_vector);
}

/// A virtual address keeps the low 48 bits of the value that it is made of, and the bits above are
/// all copies of bit 47.
pub proof fn virt_addr_keeps_the_low_bits(addr: u64)
    ensures
        sign_extended(addr) & 0xffff_ffff_ffff == addr & 0xffff_ffff_ffff,
        sign_extended(addr) >> 47 == 0 || sign_extended(addr) >> 47 == 0x1_ffff,
{
    assert(addr & 0x8000_0000_0000 == 0 ==> (addr & 0x7fff_ffff_ffff) & 0xffff_ffff_ffff == addr
        & 0xffff_ffff_ffff && (addr & 0x7fff_ffff_ffff) >> 47 == 0) by (bit_vector);
    assert(addr & 0x8000_0000_0000 != 0 ==> (addr | 0xffff_8000_0000_0000) & 0xffff_ffff_ffff
        == addr & 0xffff_ffff_ffff && (addr | 0xffff_8000_0000_0000) >> 47 == 0x1_ffff)
        by (bit_vector);
}

/// The canonical addresses are the lowest and the highest ones.
pub proof fn canonical_addresses_are_low_or_high(addr: u64)
    ensures
        canonical(addr) <==> addr <= 0x7fff_ffff_ffff || addr >= 0xffff_8000_0000_0000,
        is_virt_addr(addr) <==> addr <= 0xffff_ffff_ffff || addr >= 0xffff_8000_0000_0000,
{
    assert(if addr & 0x8000_0000_0000 == 0 {
        (addr == addr & 0x7fff_ffff_ffff) == (addr <= 0x7fff_ffff_ffff) && addr
            < 0xffff_8000_0000_0000
    } else {
        (addr == addr | 0xffff_8000_0000_0000) == (addr >= 0xffff_8000_0000_0000) && addr
            > 0x7fff_ffff_ffff
    }) by (bit_vector);
}

} // verus!
