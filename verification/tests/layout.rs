use gopher::layout::{
    align_up_to_page, CONFIG_SLOT, DEVICE_SLOT, INIT_SLOT, PAGE_SIZE, RING_VA, SHM_VA, TIME_SLOT,
};

#[test]
fn slots_and_regions_have_their_fixed_values() {
    assert_eq!(INIT_SLOT, 9);
    assert_eq!(DEVICE_SLOT, 10);
    assert_eq!(TIME_SLOT, 11);
    assert_eq!(CONFIG_SLOT, 12);
    assert_eq!(RING_VA, 0x3000_0000);
    assert_eq!(SHM_VA, 0x4000_0000);
    assert_eq!(PAGE_SIZE, 4096);
}

#[test]
fn regions_are_page_aligned_and_apart() {
    assert_eq!(RING_VA % PAGE_SIZE, 0);
    assert_eq!(SHM_VA % PAGE_SIZE, 0);
    assert!(RING_VA < SHM_VA);
}

#[test]
fn align_up_rounds_to_whole_pages() {
    assert_eq!(align_up_to_page(0), Some(0));
    assert_eq!(align_up_to_page(1), Some(4096));
    assert_eq!(align_up_to_page(4095), Some(4096));
    assert_eq!(align_up_to_page(4096), Some(4096));
    assert_eq!(align_up_to_page(4097), Some(8192));
    assert_eq!(align_up_to_page(1024 * 1024), Some(1024 * 1024));
    assert_eq!(align_up_to_page(1024 * 1024 + 1), Some(1024 * 1024 + 4096));
}

#[test]
fn align_up_refuses_what_does_not_fit() {
    assert_eq!(align_up_to_page(usize::MAX), None);
    assert_eq!(align_up_to_page(usize::MAX - 4094), None);
    assert_eq!(align_up_to_page(usize::MAX - 4095), Some(usize::MAX - 4095));
}
