//! Rows with padding: the layout of pixels that some codecs ask for, where
//! each row of an image starts a fixed number of bytes after the row before.

use vstd::arithmetic::div_mod::lemma_fundamental_div_mod_converse;
use vstd::prelude::*;

verus! {

/// The byte at place `index` of a plane whose rows start `stride` bytes
/// apart: the byte of the pixels where the place lies within a row, and zero
/// in the padding behind it.
pub open spec fn plane_byte(rgb: Seq<u8>, row_len: int, stride: int, index: int) -> u8
    recommends
        0 < stride,
        0 <= row_len <= stride,
        0 <= index,
{
    if index % stride < row_len {
        rgb[(index / stride) * row_len + index % stride]
    } else {
        0
    }
}

/// When tightly packed RGB pixels of an image of this size can be laid out
/// in rows that start `stride` bytes apart.
pub open spec fn can_be_padded(rgb: Seq<u8>, width: u32, height: u32, stride: usize) -> bool {
    &&& width * 3 <= stride
    &&& rgb.len() == width * 3 * height
    &&& stride * height <= usize::MAX
}

proof fn lemma_row_lies_within(row: int, column: int, rows: int, row_len: int)
    requires
        0 <= row < rows,
        0 <= column < row_len,
    ensures
        0 <= row * row_len + column < rows * row_len,
        0 <= row * row_len,
{
    assert(row * row_len + row_len == (row + 1) * row_len) by (nonlinear_arith);
    assert((row + 1) * row_len <= rows * row_len) by (nonlinear_arith)
        requires
            row + 1 <= rows,
            row_len >= 0,
    ;
    assert(0 <= row * row_len) by (nonlinear_arith)
        requires
            row >= 0,
            row_len >= 0,
    ;
}

/// Lays tightly packed RGB pixels out in rows that start `stride` bytes
/// apart, with zeros in the padding. Nothing is laid out where a row is
/// longer than the stride, where `rgb` does not hold exactly the pixels of
/// the image, or where the plane would be more than a vector can hold.
pub fn padded_rows(rgb: &[u8], width: u32, height: u32, stride: usize) -> (plane: Option<Vec<u8>>)
    ensures
        match plane {
            Some(plane) => {
                &&& can_be_padded(rgb@, width, height, stride)
                &&& plane@.len() == stride * height
                &&& forall|index: int|
                    0 <= index < plane@.len() ==> #[trigger] plane@[index] == plane_byte(
                        rgb@,
                        width * 3,
                        stride as int,
                        index,
                    )
            },
            None => !can_be_padded(rgb@, width, height, stride),
        },
{
    let row_len: u64 = (width as u64) * 3;
    if (stride as u64) < row_len {
        return None;
    }
    assert(row_len * height <= 0x3_0000_0000 * 0x1_0000_0000) by (nonlinear_arith)
        requires
            0 <= row_len <= 0x3_0000_0000,
            0 <= height <= 0x1_0000_0000,
    ;
    if rgb.len() as u128 != (row_len as u128) * (height as u128) {
        return None;
    }
    assert(stride * height <= 0xffff_ffff_ffff_ffff * 0x1_0000_0000) by (nonlinear_arith)
        requires
            0 <= stride <= 0xffff_ffff_ffff_ffff,
            0 <= height <= 0x1_0000_0000,
    ;
    if (stride as u128) * (height as u128) > usize::MAX as u128 {
        return None;
    }
    let row_len: usize = row_len as usize;
    let rows: usize = height as usize;
    let mut plane: Vec<u8> = Vec::new();
    let mut row: usize = 0;
    while row < rows
        invariant
            row <= rows,
            rows == height,
            row_len == width * 3,
            row_len <= stride,
            rgb@.len() == row_len * rows,
            rgb@.len() <= usize::MAX,
            stride * rows <= usize::MAX,
            plane@.len() == row * stride,
            forall|index: int|
                0 <= index < plane@.len() ==> #[trigger] plane@[index] == plane_byte(
                    rgb@,
                    row_len as int,
                    stride as int,
                    index,
                ),
        decreases rows - row,
    {
        let mut column: usize = 0;
        while column < stride
            invariant
                row < rows,
                column <= stride,
                row_len <= stride,
                rgb@.len() == row_len * rows,
                rgb@.len() <= usize::MAX,
                stride * rows <= usize::MAX,
                plane@.len() == row * stride + column,
                forall|index: int|
                    0 <= index < plane@.len() ==> #[trigger] plane@[index] == plane_byte(
                        rgb@,
                        row_len as int,
                        stride as int,
                        index,
                    ),
            decreases stride - column,
        {
            proof {
                lemma_row_lies_within(row as int, column as int, rows as int, stride as int);
                lemma_fundamental_div_mod_converse(
                    row * stride + column,
                    stride as int,
                    row as int,
                    column as int,
                );
            }
            let byte = if column < row_len {
                proof {
                    lemma_row_lies_within(row as int, column as int, rows as int, row_len as int);
                    assert(rows * row_len == row_len * rows) by (nonlinear_arith);
                }
                rgb[row * row_len + column]
            } else {
                0
            };
            plane.push(byte);
            column = column + 1;
        }
        assert((row + 1) * stride == row * stride + stride) by (nonlinear_arith);
        row = row + 1;
    }
    proof {
        assert(row_len * rows == width * 3 * height) by (nonlinear_arith)
            requires
                row_len == width * 3,
                rows == height,
        ;
        assert(row * stride == stride * height) by (nonlinear_arith)
            requires
                row == height,
        ;
    }
    Some(plane)
}

} // verus!
