use textured_quad::alignment::alignmented_size;
use textured_quad::descriptor::{
    descriptor_handle, CONSTANT_BUFFER_ALIGNMENT, CONSTANT_VIEW_SLOT, TEXTURE_VIEW_SLOT,
    VIEW_COUNT,
};

#[test]
fn a_handle_is_the_start_plus_the_index_times_the_increment() {
    assert_eq!(descriptor_handle(0x1000, 32, 0), Some(0x1000));
    assert_eq!(descriptor_handle(0x1000, 32, 1), Some(0x1020));
    assert_eq!(descriptor_handle(0x1000, 32, 5), Some(0x10A0));
    assert_eq!(descriptor_handle(0, 0, 9), Some(0));
    assert_eq!(descriptor_handle(7, 0, 9), Some(7));
}

#[test]
fn a_handle_beyond_the_address_space_is_refused() {
    assert_eq!(descriptor_handle(usize::MAX, 1, 1), None);
    assert_eq!(descriptor_handle(usize::MAX, 1, 0), Some(usize::MAX));
    assert_eq!(descriptor_handle(usize::MAX - 64, 32, 2), Some(usize::MAX));
    assert_eq!(descriptor_handle(usize::MAX - 64, 32, 3), None);
    assert_eq!(descriptor_handle(usize::MAX, u32::MAX, u32::MAX), None);
}

#[test]
fn the_views_lie_side_by_side_in_the_heap() {
    assert_eq!(TEXTURE_VIEW_SLOT, 0);
    assert_eq!(CONSTANT_VIEW_SLOT, 1);
    assert_eq!(VIEW_COUNT, 2);
    let texture = descriptor_handle(4096, 64, TEXTURE_VIEW_SLOT).unwrap();
    let constants = descriptor_handle(4096, 64, CONSTANT_VIEW_SLOT).unwrap();
    assert_eq!(texture, 4096);
    assert_eq!(constants, texture + 64);
}

#[test]
fn handles_go_up_with_the_index() {
    for increment in [1u32, 8, 32, 64] {
        let mut last = descriptor_handle(1 << 20, increment, 0).unwrap();
        for index in 1..100 {
            let handle = descriptor_handle(1 << 20, increment, index).unwrap();
            assert_eq!(handle, last + increment as usize);
            last = handle;
        }
    }
}

#[test]
fn a_constant_buffer_for_one_matrix_takes_256_bytes() {
    assert_eq!(CONSTANT_BUFFER_ALIGNMENT, 256);
    assert_eq!(alignmented_size(64, CONSTANT_BUFFER_ALIGNMENT), 256);
}
