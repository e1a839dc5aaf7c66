//! The dimension calculator: the output size of an image whose longer side is
//! scaled to a requested length while the shorter side follows in proportion.

use vstd::prelude::*;

verus! {

/// The size, in pixels, that a transformed image is given.
#[derive(Debug, PartialEq, Eq, Structural, Clone, Copy)]
pub struct ResizedDimensions {
    pub width: u32,
    pub height: u32,
}

/// Anything that has a width and a height in pixels. An implementation says
/// what its width and height are, and reports exactly those.
pub trait ImageDimensions {
    /// The width of the image.
    spec fn width_of(&self) -> u32;

    /// The height of the image.
    spec fn height_of(&self) -> u32;

    fn width(&self) -> (w: u32)
        ensures
            w == self.width_of(),
    ;

    fn height(&self) -> (h: u32)
        ensures
            h == self.height_of(),
    ;
}

/// The integer nearest to the fraction `n / d`; a fraction that lies exactly
/// halfway between two integers goes to the one farther from zero.
pub open spec fn round_nearest(n: int, d: int) -> int
    recommends
        n >= 0,
        d > 0,
{
    n / d + if 2 * (n % d) >= d {
        1int
    } else {
        0int
    }
}

/// The mathematical definition of the calculator, over unbounded integers.
pub open spec fn resized_dimensions(width: int, height: int, tallest_side: int) -> (int, int) {
    if width == 0 || height == 0 || tallest_side == 0 {
        (0, 0)
    } else if width >= height {
        (tallest_side, round_nearest(tallest_side * height, width))
    } else {
        (round_nearest(tallest_side * width, height), tallest_side)
    }
}

/// `round_nearest(n, d)` is the one integer `r` with
/// `n/d - 1/2 < r <= n/d + 1/2`, written without fractions.
pub proof fn lemma_round_nearest_bounds(n: int, d: int)
    requires
        n >= 0,
        d > 0,
    ensures
        2 * d * round_nearest(n, d) <= 2 * n + d,
        2 * n + d < 2 * d * (round_nearest(n, d) + 1),
        round_nearest(n, d) >= 0,
{
    let q = n / d;
    let m = n % d;
    vstd::arithmetic::div_mod::lemma_fundamental_div_mod(n, d);
    vstd::arithmetic::div_mod::lemma_mod_bound(n, d);
    vstd::arithmetic::div_mod::lemma_div_pos_is_pos(n, d);
    assert(2 * d * q == 2 * (d * q)) by (nonlinear_arith);
    assert(2 * d * (q + 1) == 2 * (d * q) + 2 * d) by (nonlinear_arith);
    assert(2 * d * (q + 2) == 2 * (d * q) + 4 * d) by (nonlinear_arith);
}

/// Any integer `r` that satisfies the two bounds is `round_nearest(n, d)`.
pub proof fn lemma_round_nearest_unique(n: int, d: int, r: int)
    requires
        n >= 0,
        d > 0,
        2 * d * r <= 2 * n + d,
        2 * n + d < 2 * d * (r + 1),
    ensures
        r == round_nearest(n, d),
{
    lemma_round_nearest_bounds(n, d);
    let q = round_nearest(n, d);
    if r < q {
        assert(2 * d * (r + 1) <= 2 * d * q) by (nonlinear_arith)
            requires
                r + 1 <= q,
                d > 0,
        ;
    } else if r > q {
        assert(2 * d * (q + 1) <= 2 * d * r) by (nonlinear_arith)
            requires
                q + 1 <= r,
                d > 0,
        ;
    }
}

/// No integer lies closer to `n / d` than `round_nearest(n, d)` does, and of
/// two integers that are equally close the larger one is taken.
pub proof fn lemma_round_nearest_is_nearest(n: int, d: int, k: int)
    requires
        n >= 0,
        d > 0,
    ensures
        vstd::math::abs(d * round_nearest(n, d) - n) <= vstd::math::abs(d * k - n),
        vstd::math::abs(d * round_nearest(n, d) - n) == vstd::math::abs(d * k - n) ==> k
            <= round_nearest(n, d),
{
    lemma_round_nearest_bounds(n, d);
    let r = round_nearest(n, d);
    assert(2 * d * (r + 1) == 2 * (d * r) + 2 * d) by (nonlinear_arith);
    assert(2 * d * r == 2 * (d * r)) by (nonlinear_arith);
    if k > r {
        assert(d * k >= d * r + d) by (nonlinear_arith)
            requires
                k >= r + 1,
                d > 0,
        ;
    } else if k < r {
        assert(d * k <= d * r - d) by (nonlinear_arith)
            requires
                k <= r - 1,
                d > 0,
        ;
    }
}

/// Whenever a side of the image or the requested length is zero, the result
/// is `(0, 0)`.
pub proof fn lemma_zero_input_gives_zero(width: int, height: int, tallest_side: int)
    ensures
        resized_dimensions(width, height, 0) == (0int, 0int),
        resized_dimensions(0, height, tallest_side) == (0int, 0int),
        resized_dimensions(width, 0, tallest_side) == (0int, 0int),
{
}

/// For an image with no zero side and a requested length above zero, the
/// longer side of the result is the requested length and the other side is
/// at most that; a square image gets both sides equal to it.
pub proof fn lemma_longer_side_is_pinned(width: int, height: int, tallest_side: int)
    requires
        width > 0,
        height > 0,
        tallest_side > 0,
    ensures
        width >= height ==> resized_dimensions(width, height, tallest_side).0 == tallest_side,
        width < height ==> resized_dimensions(width, height, tallest_side).1 == tallest_side,
        0 <= resized_dimensions(width, height, tallest_side).0 <= tallest_side,
        0 <= resized_dimensions(width, height, tallest_side).1 <= tallest_side,
        width == height ==> resized_dimensions(width, height, tallest_side) == (
            tallest_side,
            tallest_side,
        ),
{
    if width >= height {
        lemma_scaled_side_bounded(tallest_side, height, width);
        if width == height {
            assert(2 * width * tallest_side == 2 * (tallest_side * height)) by (nonlinear_arith)
                requires
                    width == height,
            ;
            assert(2 * width * (tallest_side + 1) == 2 * (tallest_side * height) + 2 * width)
                by (nonlinear_arith)
                requires
                    width == height,
            ;
            lemma_round_nearest_unique(tallest_side * height, width, tallest_side);
        }
    } else {
        lemma_scaled_side_bounded(tallest_side, width, height);
    }
}

/// The result is `(0, 0)` exactly when a side of the image or the requested
/// length is zero.
pub proof fn lemma_zero_exactly_on_zero_input(width: int, height: int, tallest_side: int)
    requires
        width >= 0,
        height >= 0,
        tallest_side >= 0,
    ensures
        resized_dimensions(width, height, tallest_side) == (0int, 0int) <==> width == 0 || height
            == 0 || tallest_side == 0,
{
    if width > 0 && height > 0 && tallest_side > 0 {
        lemma_longer_side_is_pinned(width, height, tallest_side);
    }
}

/// Swapping the sides of the image swaps the sides of the result.
pub proof fn lemma_swapped_sides(width: int, height: int, tallest_side: int)
    requires
        width >= 0,
        height >= 0,
        tallest_side >= 0,
    ensures
        resized_dimensions(height, width, tallest_side) == (
            resized_dimensions(width, height, tallest_side).1,
            resized_dimensions(width, height, tallest_side).0,
        ),
{
    if width > 0 && height > 0 && tallest_side > 0 {
        lemma_longer_side_is_pinned(width, height, tallest_side);
        lemma_longer_side_is_pinned(height, width, tallest_side);
    }
}

/// Scaling by a ratio `short / long` that is at most one never gives more
/// than the length that was scaled.
proof fn lemma_scaled_side_bounded(t: int, short: int, long: int)
    requires
        t >= 0,
        0 <= short <= long,
        long > 0,
    ensures
        0 <= round_nearest(t * short, long) <= t,
{
    assert(t * short >= 0) by (nonlinear_arith)
        requires
            t >= 0,
            short >= 0,
    ;
    assert(t * short <= t * long) by (nonlinear_arith)
        requires
            t >= 0,
            short <= long,
    ;
    lemma_round_nearest_bounds(t * short, long);
    let r = round_nearest(t * short, long);
    if r > t {
        assert(2 * long * r >= 2 * long * (t + 1)) by (nonlinear_arith)
            requires
                r >= t + 1,
                long > 0,
        ;
        assert(2 * long * (t + 1) == 2 * (t * long) + 2 * long) by (nonlinear_arith);
    }
}

/// `tallest_side * short / long`, rounded to the nearest integer.
fn scale_side(tallest_side: u32, short: u32, long: u32) -> (scaled: u32)
    requires
        short <= long,
        long > 0,
    ensures
        scaled == round_nearest(tallest_side * short, long as int),
        scaled <= tallest_side,
{
    assert(tallest_side * short <= 0xffff_ffff * 0xffff_ffff) by (nonlinear_arith)
        requires
            0 <= tallest_side <= 0xffff_ffff,
            0 <= short <= 0xffff_ffff,
    ;
    let product: u64 = (tallest_side as u64) * (short as u64);
    let divisor: u64 = long as u64;
    let quotient: u64 = product / divisor;
    let remainder: u64 = product % divisor;
    proof {
        assert(product == tallest_side * short);
        lemma_scaled_side_bounded(tallest_side as int, short as int, long as int);
    }
    if 2 * remainder >= divisor {
        (quotient + 1) as u32
    } else {
        quotient as u32
    }
}

/// Computes the size of a transformed image from the size of its source:
/// the longer side becomes `tallest_side` and the shorter side keeps the
/// proportion, rounded to the nearest pixel. A square image counts as
/// landscape. When a side of the source or `tallest_side` is zero the
/// result is `(0, 0)`.
pub fn resize_dimensions(source_width: u32, source_height: u32, tallest_side: u32) -> (dims:
    ResizedDimensions)
    ensures
        (dims.width as int, dims.height as int) == resized_dimensions(
            source_width as int,
            source_height as int,
            tallest_side as int,
        ),
{
    if source_width == 0 || source_height == 0 || tallest_side == 0 {
        return ResizedDimensions { width: 0, height: 0 };
    }
    if source_width >= source_height {
        ResizedDimensions {
            width: tallest_side,
            height: scale_side(tallest_side, source_height, source_width),
        }
    } else {
        ResizedDimensions {
            width: scale_side(tallest_side, source_width, source_height),
            height: tallest_side,
        }
    }
}

/// Computes the size of the transformed image for anything that has a
/// width and a height: the longer side of `image` becomes `tallest_side` and
/// the shorter side keeps the proportion, rounded to the nearest pixel. A
/// square image counts as landscape. When a side of the image or
/// `tallest_side` is zero the result is `(0, 0)`.
pub fn calculate_resized_dimensions<T: ImageDimensions>(image: &T, tallest_side: u32) -> (dims:
    ResizedDimensions)
    ensures
        (dims.width as int, dims.height as int) == resized_dimensions(
            image.width_of() as int,
            image.height_of() as int,
            tallest_side as int,
        ),
{
    resize_dimensions(image.width(), image.height(), tallest_side)
}

} // verus!
