use gpio_cdev::mask::{full_mask, index_of_offset, offsets_to_mask};

#[test]
fn index_of_offset_finds_first_match() {
    assert_eq!(index_of_offset(&[3, 7, 2, 7], 7), Some(1));
    assert_eq!(index_of_offset(&[3, 7, 2], 3), Some(0));
    assert_eq!(index_of_offset(&[3, 7, 2], 9), None);
    assert_eq!(index_of_offset(&[], 0), None);
}

#[test]
fn index_of_offset_is_repeatable() {
    let offsets = [5, 6, 5];
    assert_eq!(index_of_offset(&offsets, 5), index_of_offset(&offsets, 5));
}

#[test]
fn mask_sets_bits_at_matching_indices() {
    assert_eq!(offsets_to_mask(&[3, 7, 2], &[7, 2, 9]), 0b110);
    assert_eq!(offsets_to_mask(&[3, 7, 2], &[]), 0);
    assert_eq!(offsets_to_mask(&[3, 7, 2], &[10, 11]), 0);
}

#[test]
fn mask_bit_count_matches_targets_in_list() {
    let offsets: Vec<u32> = (0..64).map(|i| i * 2).collect();
    let targets = [0, 2, 126, 127, 300];
    let m = offsets_to_mask(&offsets, &targets);
    assert_eq!(m.count_ones(), 3);
    assert_eq!(m, 1 | 2 | (1u64 << 63));
}

#[test]
fn full_mask_covers_first_indices() {
    assert_eq!(full_mask(0), 0);
    assert_eq!(full_mask(3), 0b111);
    assert_eq!(full_mask(64), u64::MAX);
}
