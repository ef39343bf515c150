//! Fixed capability slots and virtual-address regions of the service.

use vstd::prelude::*;

verus! {

/// Size of one page and of one packet frame, in bytes.
pub const PAGE_SIZE: usize = 4096;

/// Slot holding the endpoint of the init manager.
pub const INIT_SLOT: usize = 9;

/// Slot holding the endpoint of the device manager.
pub const DEVICE_SLOT: usize = 10;

/// Slot holding the endpoint of the time service.
pub const TIME_SLOT: usize = 11;

/// Slot that receives the configuration frame.
pub const CONFIG_SLOT: usize = 12;

/// Base of the region where rings are mapped, one after another.
pub const RING_VA: usize = 0x3000_0000;

/// Base of the region where packet pools are mapped.
pub const SHM_VA: usize = 0x4000_0000;

/// `value` rounded up to the next multiple of the page size.
pub open spec fn page_align_up(value: int) -> int {
    ((value + PAGE_SIZE - 1) / (PAGE_SIZE as int)) * PAGE_SIZE
}

/// Number of whole pages needed to hold `bytes` bytes.
pub open spec fn pages_for(bytes: int) -> int {
    (bytes + PAGE_SIZE - 1) / (PAGE_SIZE as int)
}

/// Rounds `value` up to a whole number of pages, or `None` where the rounded
/// value does not fit in a `usize`.
pub fn align_up_to_page(value: usize) -> (r: Option<usize>)
    ensures
        r == (if page_align_up(value as int) <= usize::MAX {
            Some(page_align_up(value as int) as usize)
        } else {
            None
        }),
{
    if value > usize::MAX - (PAGE_SIZE - 1) {
        None
    } else {
        let pages: usize = (value + (PAGE_SIZE - 1)) / PAGE_SIZE;
        Some(pages * PAGE_SIZE)
    }
}

} // verus!
