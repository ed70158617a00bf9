//! Bit addressing inside one plane of the framebuffer.
//!
//! A plane holds one bit per pixel of the native grid, row after row. Each byte
//! packs eight horizontally adjacent pixels, the leftmost in the most
//! significant bit.

use vstd::prelude::*;
use crate::geometry::{in_grid, NATIVE_COLS, NATIVE_ROWS, PLANE_LEN, ROW_STRIDE};

verus! {

/// Offset in a plane of the byte that holds the pixel `(col, row)`.
pub open spec fn byte_index(col: int, row: int) -> int {
    row * (NATIVE_COLS as int / 8) + col / 8
}

/// Number of the bit, within its byte, that holds a pixel of column `col`.
pub open spec fn bit_number(col: int) -> int {
    7 - col % 8
}

/// The byte with only bit number `bit` set.
pub open spec fn single_bit(bit: u8) -> u8 {
    1u8 << bit
}

/// Mask that selects, within its byte, the bit of a pixel of column `col`.
pub open spec fn bit_mask(col: int) -> u8 {
    single_bit(bit_number(col) as u8)
}

/// The bit of pixel `(col, row)` in `plane`.
pub open spec fn bit_at(plane: Seq<u8>, col: int, row: int) -> bool {
    plane[byte_index(col, row)] & bit_mask(col) != 0
}

/// A byte with the bits under `mask` set or cleared.
pub open spec fn masked(byte: u8, mask: u8, on: bool) -> u8 {
    if on {
        byte | mask
    } else {
        byte & !mask
    }
}

/// `plane` with the bit of pixel `(col, row)` set or cleared, every other bit
/// as it was.
pub open spec fn with_bit(plane: Seq<u8>, col: int, row: int, on: bool) -> Seq<u8> {
    plane.update(
        byte_index(col, row),
        masked(plane[byte_index(col, row)], bit_mask(col), on),
    )
}

/// A plane whose every byte is `byte`.
pub open spec fn filled(byte: u8) -> Seq<u8> {
    Seq::new(PLANE_LEN as nat, |i: int| byte)
}

/// Every pixel of the grid has its byte inside a plane.
pub proof fn lemma_byte_index_in_plane(col: int, row: int)
    requires
        in_grid(col, row),
    ensures
        0 <= byte_index(col, row) < PLANE_LEN as int,
        0 <= bit_number(col) < 8,
{
}

/// Two pixels share a byte and a bit number only when they are the same pixel.
pub proof fn lemma_bit_address_injective(col1: int, row1: int, col2: int, row2: int)
    requires
        in_grid(col1, row1),
        in_grid(col2, row2),
        byte_index(col1, row1) == byte_index(col2, row2),
        bit_number(col1) == bit_number(col2),
    ensures
        col1 == col2,
        row1 == row2,
{
    let q1 = col1 / 8;
    let q2 = col2 / 8;
    assert(0 <= q1 < 13 && 0 <= q2 < 13);
    assert(row1 * 13 + q1 == row2 * 13 + q2);
    assert(row1 == row2);
    assert(col1 == 8 * q1 + col1 % 8);
    assert(col2 == 8 * q2 + col2 % 8);
}

proof fn lemma_masked_same(byte: u8, bit: u8, on: bool)
    requires
        bit < 8,
    ensures
        (masked(byte, single_bit(bit), on) & single_bit(bit) != 0) == on,
        masked(masked(byte, single_bit(bit), on), single_bit(bit), on) == masked(
            byte,
            single_bit(bit),
            on,
        ),
{
    let m = single_bit(bit);
    assert(((byte | (1u8 << bit)) & (1u8 << bit)) != 0) by (bit_vector)
        requires
            bit < 8,
    ;
    assert(((byte & !(1u8 << bit)) & (1u8 << bit)) == 0) by (bit_vector);
    assert(((byte | m) | m) == (byte | m)) by (bit_vector);
    assert(((byte & !m) & !m) == (byte & !m)) by (bit_vector);
}

proof fn lemma_masked_other(byte: u8, bit: u8, other: u8, on: bool)
    requires
        bit < 8,
        other < 8,
        bit != other,
    ensures
        masked(byte, single_bit(bit), on) & single_bit(other) == byte & single_bit(other),
{
    assert(((byte | (1u8 << bit)) & (1u8 << other)) == (byte & (1u8 << other))) by (bit_vector)
        requires
            bit < 8,
            other < 8,
            bit != other,
    ;
    assert(((byte & !(1u8 << bit)) & (1u8 << other)) == (byte & (1u8 << other))) by (bit_vector)
        requires
            bit < 8,
            other < 8,
            bit != other,
    ;
}

proof fn lemma_fill_bits(bit: u8)
    requires
        bit < 8,
    ensures
        0xFFu8 & single_bit(bit) != 0,
        0x00u8 & single_bit(bit) == 0,
{
    assert((0xFFu8 & (1u8 << bit)) != 0) by (bit_vector)
        requires
            bit < 8,
    ;
    assert((0x00u8 & (1u8 << bit)) == 0) by (bit_vector);
}

/// Writing a pixel's bit makes that bit read as written.
pub proof fn lemma_with_bit_same(plane: Seq<u8>, col: int, row: int, on: bool)
    requires
        plane.len() == PLANE_LEN,
        in_grid(col, row),
    ensures
        bit_at(with_bit(plane, col, row, on), col, row) == on,
{
    lemma_byte_index_in_plane(col, row);
    lemma_masked_same(plane[byte_index(col, row)], bit_number(col) as u8, on);
}

/// Writing a pixel's bit leaves the bit of every other pixel as it was.
pub proof fn lemma_with_bit_other(
    plane: Seq<u8>,
    col: int,
    row: int,
    on: bool,
    col2: int,
    row2: int,
)
    requires
        plane.len() == PLANE_LEN,
        in_grid(col, row),
        in_grid(col2, row2),
        (col, row) != (col2, row2),
    ensures
        bit_at(with_bit(plane, col, row, on), col2, row2) == bit_at(plane, col2, row2),
{
    lemma_byte_index_in_plane(col, row);
    lemma_byte_index_in_plane(col2, row2);
    if byte_index(col, row) == byte_index(col2, row2) {
        if bit_number(col) == bit_number(col2) {
            lemma_bit_address_injective(col, row, col2, row2);
        }
        lemma_masked_other(
            plane[byte_index(col, row)],
            bit_number(col) as u8,
            bit_number(col2) as u8,
            on,
        );
    }
}

/// Writing the same bit twice is the same as writing it once.
pub proof fn lemma_with_bit_idempotent(plane: Seq<u8>, col: int, row: int, on: bool)
    requires
        plane.len() == PLANE_LEN,
        in_grid(col, row),
    ensures
        with_bit(with_bit(plane, col, row, on), col, row, on) == with_bit(plane, col, row, on),
{
    lemma_byte_index_in_plane(col, row);
    lemma_masked_same(plane[byte_index(col, row)], bit_number(col) as u8, on);
    assert(with_bit(with_bit(plane, col, row, on), col, row, on) =~= with_bit(
        plane,
        col,
        row,
        on,
    ));
}

/// In a plane filled with `0xFF` every pixel's bit is set, in one filled with
/// `0x00` every bit is clear.
pub proof fn lemma_filled_bit(on: bool, col: int, row: int)
    requires
        in_grid(col, row),
    ensures
        bit_at(filled(if on { 0xFFu8 } else { 0x00u8 }), col, row) == on,
{
    lemma_byte_index_in_plane(col, row);
    lemma_fill_bits(bit_number(col) as u8);
}

/// Reads the bit of pixel `(col, row)`.
pub(crate) fn get_bit(plane: &Vec<u8>, col: u8, row: u16) -> (on: bool)
    requires
        plane@.len() == PLANE_LEN,
        in_grid(col as int, row as int),
    ensures
        on == bit_at(plane@, col as int, row as int),
{
    let index: usize = row as usize * ROW_STRIDE + (col / 8) as usize;
    let mask: u8 = 1u8 << (7 - col % 8);
    plane[index] & mask != 0
}

/// Sets or clears the bit of pixel `(col, row)` and touches nothing else.
pub(crate) fn set_bit(plane: &mut Vec<u8>, col: u8, row: u16, on: bool)
    requires
        old(plane)@.len() == PLANE_LEN,
        in_grid(col as int, row as int),
    ensures
        final(plane)@ == with_bit(old(plane)@, col as int, row as int, on),
    no_unwind
{
    let index: usize = row as usize * ROW_STRIDE + (col / 8) as usize;
    let mask: u8 = 1u8 << (7 - col % 8);
    let byte: u8 = plane[index];
    if on {
        plane[index] = byte | mask;
    } else {
        plane[index] = byte & !mask;
    }
}

/// A fresh plane with every byte equal to `byte`.
pub(crate) fn new_plane(byte: u8) -> (plane: Vec<u8>)
    ensures
        plane@ == filled(byte),
{
    let mut plane: Vec<u8> = Vec::with_capacity(PLANE_LEN);
    let mut i: usize = 0;
    while i < PLANE_LEN
        invariant
            i <= PLANE_LEN,
            plane@.len() == i,
            forall|k: int| 0 <= k < i ==> plane@[k] == byte,
        decreases PLANE_LEN - i,
    {
        plane.push(byte);
        i += 1;
    }
    assert(plane@ =~= filled(byte));
    plane
}

/// Overwrites every byte of the plane with `byte`.
pub(crate) fn fill(plane: &mut Vec<u8>, byte: u8)
    requires
        old(plane)@.len() == PLANE_LEN,
    ensures
        final(plane)@ == filled(byte),
    no_unwind
{
    let mut i: usize = 0;
    while i < PLANE_LEN
        invariant
            i <= PLANE_LEN,
            plane@.len() == PLANE_LEN,
            forall|k: int| 0 <= k < i ==> plane@[k] == byte,
        decreases PLANE_LEN - i,
    {
        plane[i] = byte;
        i += 1;
    }
    assert(plane@ =~= filled(byte));
}

} // verus!
