//! Addresses, page frames and page tables, as far as the rest has to know them.

use vstd::prelude::*;

verus! {

/// A physical page that is owned.
#[derive(Debug, PartialEq, Eq, Structural)]
pub struct Frame {
    pub start_paddr: usize,
}

/// A guest page table that is only read, known by the physical address of its root.
#[derive(Clone, Copy, Debug, PartialEq, Eq, Structural)]
pub struct GuestPageTableImmut {
    pub root: usize,
}

/// The page that an address lies in.
pub open spec fn page_of(addr: usize) -> int {
    addr - addr % 4096
}

/// Rounds an address down to the page that it lies in.
pub fn align_down(addr: usize) -> (page: usize)
    ensures
        page == page_of(addr),
{
    assert(addr & !0xfff == addr - addr % 4096) by (bit_vector);
    addr & !0xfff
}

/// An address lies in its page, and pages lie at multiples of their size.
pub proof fn an_address_is_in_its_page(addr: usize)
    ensures
        page_of(addr) <= addr < page_of(addr) + 4096,
        page_of(addr) % 4096 == 0,
        0 <= page_of(addr),
{
}

} // verus!
