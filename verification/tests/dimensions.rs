use image_cache::dimensions::{
    calculate_resized_dimensions, resize_dimensions, ImageDimensions, ResizedDimensions,
};

struct Plain {
    width: u32,
    height: u32,
}

impl ImageDimensions for Plain {
    fn width_of(&self) -> u32 {
        self.width
    }

    fn height_of(&self) -> u32 {
        self.height
    }

    fn width(&self) -> u32 {
        self.width
    }

    fn height(&self) -> u32 {
        self.height
    }
}

fn resized(width: u32, height: u32, tallest_side: u32) -> ResizedDimensions {
    calculate_resized_dimensions(&Plain { width, height }, tallest_side)
}

fn dims(width: u32, height: u32) -> ResizedDimensions {
    ResizedDimensions { width, height }
}

#[test]
fn landscape_is_pinned_by_width() {
    assert_eq!(resized(4000, 2000, 1000), dims(1000, 500));
}

#[test]
fn portrait_is_pinned_by_height() {
    assert_eq!(resized(2000, 4000, 1000), dims(500, 1000));
}

#[test]
fn square_takes_the_landscape_branch() {
    assert_eq!(resized(1000, 1000, 500), dims(500, 500));
}

#[test]
fn zero_target_gives_zero() {
    assert_eq!(resized(4000, 2000, 0), dims(0, 0));
    assert_eq!(resized(1, 1, 0), dims(0, 0));
    assert_eq!(resized(u32::MAX, u32::MAX, 0), dims(0, 0));
}

#[test]
fn zero_width_gives_zero() {
    assert_eq!(resized(0, 2000, 1000), dims(0, 0));
    assert_eq!(resized(0, 0, 1000), dims(0, 0));
    assert_eq!(resized(0, u32::MAX, u32::MAX), dims(0, 0));
}

#[test]
fn zero_height_gives_zero() {
    assert_eq!(resized(4000, 0, 1000), dims(0, 0));
    assert_eq!(resized(u32::MAX, 0, 1), dims(0, 0));
}

#[test]
fn the_trait_and_the_plain_values_agree() {
    for (width, height, side) in [(1600, 1200, 800), (3, 7, 5), (7, 3, 5), (1, 1, 1), (0, 9, 9)] {
        assert_eq!(resized(width, height, side), resize_dimensions(width, height, side));
    }
}

#[test]
fn the_shorter_side_is_rounded_to_the_nearest() {
    // 100 * 2 / 3 = 66.67
    assert_eq!(resize_dimensions(3, 2, 100), dims(100, 67));
    // 100 * 1 / 3 = 33.33
    assert_eq!(resize_dimensions(3, 1, 100), dims(100, 33));
    // 800 * 1200 / 1600 = 600 exactly
    assert_eq!(resize_dimensions(1600, 1200, 800), dims(800, 600));
    // 5 * 3 / 7 = 2.14
    assert_eq!(resize_dimensions(3, 7, 5), dims(2, 5));
}

#[test]
fn a_tie_goes_away_from_zero() {
    // 1 * 2 / 4 = 0.5
    assert_eq!(resize_dimensions(4, 2, 1), dims(1, 1));
    // 5 * 1 / 2 = 2.5
    assert_eq!(resize_dimensions(2, 1, 5), dims(5, 3));
    // 3 * 1 / 2 = 1.5, portrait
    assert_eq!(resize_dimensions(1, 2, 3), dims(2, 3));
}

#[test]
fn a_tie_is_a_tie_of_the_exact_ratio() {
    // 49 * 1 / 98 = 0.5 exactly, though 1 / 98 has no exact binary fraction
    assert_eq!(resize_dimensions(1, 98, 49), dims(1, 49));
    assert_eq!(resize_dimensions(98, 1, 49), dims(49, 1));
    // 55 * 3 / 22 = 7.5
    assert_eq!(resize_dimensions(3, 22, 55), dims(8, 55));
}

#[test]
fn a_very_long_image_can_lose_its_shorter_side() {
    // 100 * 1 / 1000 = 0.1
    assert_eq!(resize_dimensions(1000, 1, 100), dims(100, 0));
    assert_eq!(resize_dimensions(1, 1000, 100), dims(0, 100));
}

#[test]
fn the_largest_values_do_not_overflow() {
    assert_eq!(resize_dimensions(u32::MAX, u32::MAX, u32::MAX), dims(u32::MAX, u32::MAX));
    assert_eq!(resize_dimensions(u32::MAX, 1, u32::MAX), dims(u32::MAX, 1));
    assert_eq!(resize_dimensions(u32::MAX, u32::MAX - 1, u32::MAX), dims(u32::MAX, u32::MAX - 1));
    assert_eq!(resize_dimensions(1, u32::MAX, u32::MAX), dims(1, u32::MAX));
    assert_eq!(resize_dimensions(u32::MAX, u32::MAX, 1), dims(1, 1));
}

#[test]
fn no_side_exceeds_the_target() {
    for width in 1..40u32 {
        for height in 1..40u32 {
            for side in [1u32, 2, 7, 39, 1000] {
                let got = resize_dimensions(width, height, side);
                assert!(got.width <= side && got.height <= side);
                assert!(got.width == side || got.height == side);
                if width >= height {
                    assert_eq!(got.width, side);
                } else {
                    assert_eq!(got.height, side);
                }
            }
        }
    }
}

#[test]
fn the_calculator_reads_what_the_image_reports() {
    assert_eq!(resized(1600, 1200, 800), dims(800, 600));
    assert_eq!(resized(4, 2, 5), dims(5, 3));
    assert_eq!(resized(0, 7, 5), dims(0, 0));
    assert_eq!(resized(7, 0, 5), dims(0, 0));
}

#[test]
fn swapping_the_sides_swaps_the_result() {
    for (width, height, side) in [(4000, 2000, 1000), (3, 7, 5), (1, 98, 49), (1000, 1, 100)] {
        let one = resized(width, height, side);
        let other = resized(height, width, side);
        assert_eq!((one.width, one.height), (other.height, other.width));
    }
}
