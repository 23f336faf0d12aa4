use sanctum_token_ratio::return_data::zero_padded_return_data;

#[test]
fn pads_truncated_return_data_with_zeros() {
    let data = [1u8, 2, 3];
    let padded: [u8; 8] = zero_padded_return_data(&data);
    assert_eq!(padded, [1, 2, 3, 0, 0, 0, 0, 0]);
}

#[test]
fn full_width_return_data_is_unchanged() {
    let data = [9u8, 8, 7, 6];
    let padded: [u8; 4] = zero_padded_return_data(&data);
    assert_eq!(padded, [9, 8, 7, 6]);
}

#[test]
fn empty_return_data_pads_to_all_zeros() {
    let data: [u8; 0] = [];
    let padded: [u8; 5] = zero_padded_return_data(&data);
    assert_eq!(padded, [0; 5]);
}
