//! Host layer that boots a guest kernel image inside a WebAssembly engine:
//! the boot descriptor, the guest-facing host calls and the bookkeeping of
//! execution contexts, each stated and proved over plain values.
use vstd::prelude::*;

pub mod boot;
pub mod clock;
pub mod context;
pub mod fdt;
pub mod host;
pub mod irq;
pub mod region;

verus! {

/// Size in bytes of one page of guest memory.
pub const PAGE_SIZE: u64 = 65536;

/// Number of bytes in a region of `pages` pages.
pub fn region_size(pages: u32) -> (r: u64)
    ensures
        r == pages * PAGE_SIZE,
{
    pages as u64 * PAGE_SIZE
}

} // verus!
