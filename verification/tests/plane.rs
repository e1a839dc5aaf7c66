use image_cache::plane::padded_rows;

#[test]
fn rows_without_padding_are_the_pixels() {
    let rgb: Vec<u8> = (1..=12).collect();
    assert_eq!(padded_rows(&rgb, 2, 2, 6), Some(rgb.clone()));
    assert_eq!(padded_rows(&rgb, 4, 1, 12), Some(rgb.clone()));
    assert_eq!(padded_rows(&rgb, 1, 4, 3), Some(rgb));
}

#[test]
fn each_row_is_followed_by_zeros() {
    let rgb: Vec<u8> = (1..=12).collect();
    assert_eq!(
        padded_rows(&rgb, 2, 2, 8),
        Some(vec![1, 2, 3, 4, 5, 6, 0, 0, 7, 8, 9, 10, 11, 12, 0, 0])
    );
    assert_eq!(
        padded_rows(&rgb, 1, 4, 4),
        Some(vec![1, 2, 3, 0, 4, 5, 6, 0, 7, 8, 9, 0, 10, 11, 12, 0])
    );
}

#[test]
fn a_stride_shorter_than_a_row_is_refused() {
    let rgb: Vec<u8> = (1..=12).collect();
    assert_eq!(padded_rows(&rgb, 2, 2, 5), None);
    assert_eq!(padded_rows(&rgb, 2, 2, 0), None);
}

#[test]
fn pixels_that_do_not_match_the_size_are_refused() {
    let rgb: Vec<u8> = (1..=12).collect();
    assert_eq!(padded_rows(&rgb, 2, 3, 6), None);
    assert_eq!(padded_rows(&rgb, 1, 2, 6), None);
    assert_eq!(padded_rows(&rgb[..11], 2, 2, 6), None);
    assert_eq!(padded_rows(&[], 1, 1, 3), None);
}

#[test]
fn an_image_without_pixels_has_an_empty_plane() {
    assert_eq!(padded_rows(&[], 0, 0, 0), Some(vec![]));
    assert_eq!(padded_rows(&[], 0, 0, 16), Some(vec![]));
    assert_eq!(padded_rows(&[], 5, 0, 16), Some(vec![]));
    assert_eq!(padded_rows(&[], 0, 3, 2), Some(vec![0; 6]));
}

#[test]
fn a_plane_that_cannot_be_held_is_refused() {
    assert_eq!(padded_rows(&[], 0, u32::MAX, usize::MAX), None);
}
