use vstd::prelude::*;
use crate::errors::AtlasError;

verus! {

/// 1 when the adjacency flag is set, 0 otherwise.
pub open spec fn corner_bit(b: bool) -> int {
    if b {
        1int
    } else {
        0int
    }
}

/// The corner mask: bit 0 = left-up, bit 1 = right-up, bit 2 = left-down,
/// bit 3 = right-down, so `mask = 8 * rd + 4 * ld + 2 * ru + lu`.
pub open spec fn corner_mask(lu: bool, ru: bool, ld: bool, rd: bool) -> int {
    8 * corner_bit(rd) + 4 * corner_bit(ld) + 2 * corner_bit(ru) + corner_bit(lu)
}

/// The left-up flag a mask encodes.
pub open spec fn mask_lu(m: int) -> bool {
    m % 2 == 1
}

/// The right-up flag a mask encodes.
pub open spec fn mask_ru(m: int) -> bool {
    (m / 2) % 2 == 1
}

/// The left-down flag a mask encodes.
pub open spec fn mask_ld(m: int) -> bool {
    (m / 4) % 2 == 1
}

/// The right-down flag a mask encodes.
pub open spec fn mask_rd(m: int) -> bool {
    (m / 8) % 2 == 1
}

/// Packs the four diagonal-neighbor flags into a corner mask.
pub fn grid_corner_mask(lu: bool, ru: bool, ld: bool, rd: bool) -> (mask: u8)
    ensures
        mask == corner_mask(lu, ru, ld, rd),
        mask < 16,
{
    let lu8: u8 = if lu { 1 } else { 0 };
    let ru8: u8 = if ru { 1 } else { 0 };
    let ld8: u8 = if ld { 1 } else { 0 };
    let rd8: u8 = if rd { 1 } else { 0 };
    let mask: u8 = (rd8 << 3u8) | (ld8 << 2u8) | (ru8 << 1u8) | lu8;
    proof {
        assert(mask == 8 * rd8 + 4 * ld8 + 2 * ru8 + lu8) by (bit_vector)
            requires
                lu8 <= 1,
                ru8 <= 1,
                ld8 <= 1,
                rd8 <= 1,
                mask == (rd8 << 3u8) | (ld8 << 2u8) | (ru8 << 1u8) | lu8,
        ;
    }
    mask
}

/// Derives the corner mask from the four edge-neighbor flags: a diagonal
/// neighbor counts as same terrain only when both of its edges do. The
/// derived flags are handed on in the fixed `lu, ru, ld, rd` order.
pub fn mask_from_sides(r: bool, u: bool, l: bool, d: bool) -> (mask: u8)
    ensures
        mask == corner_mask(l && u, r && u, l && d, r && d),
        mask < 16,
{
    let lu = l && u;
    let ru = r && u;
    let ld = l && d;
    let rd = r && d;
    grid_corner_mask(lu, ru, ld, rd)
}

/// The mask encoding is a bijection between the 16 flag quadruples and
/// the masks 0..16: decoding the packed mask through the fixed bit
/// positions reproduces the original quadruple.
pub proof fn lemma_corner_mask_bijection(lu: bool, ru: bool, ld: bool, rd: bool)
    ensures
        0 <= corner_mask(lu, ru, ld, rd) < 16,
        mask_lu(corner_mask(lu, ru, ld, rd)) == lu,
        mask_ru(corner_mask(lu, ru, ld, rd)) == ru,
        mask_ld(corner_mask(lu, ru, ld, rd)) == ld,
        mask_rd(corner_mask(lu, ru, ld, rd)) == rd,
{
}

/// Every mask in 0..16 is reached: re-packing the flags a mask encodes
/// gives the mask back.
pub proof fn lemma_corner_mask_complete(m: int)
    requires
        0 <= m < 16,
    ensures
        corner_mask(mask_lu(m), mask_ru(m), mask_ld(m), mask_rd(m)) == m,
{
}

/// The column inside a 2x2 composite cell where quadrant `q` lands:
/// quadrants are numbered left-up 0, right-up 1, left-down 2, right-down 3.
pub open spec fn quadrant_x(q: int, cell_w: int) -> int {
    (q % 2) * cell_w
}

/// The row inside a 2x2 composite cell where quadrant `q` lands.
pub open spec fn quadrant_y(q: int, cell_h: int) -> int {
    (q / 2) * cell_h
}

/// Where quadrant `q` of a composite cell starts, for cells of
/// `cell_w` by `cell_h` pixels.
pub fn quadrant_origin(q: u32, cell_w: u32, cell_h: u32) -> (r: (u32, u32))
    requires
        q < 4,
    ensures
        r.0 == quadrant_x(q as int, cell_w as int),
        r.1 == quadrant_y(q as int, cell_h as int),
{
    let qx: u32 = if q % 2 == 1 { cell_w } else { 0 };
    let qy: u32 = if q / 2 == 1 { cell_h } else { 0 };
    proof {
        if q % 2 == 1 {
            assert(quadrant_x(q as int, cell_w as int) == 1 * cell_w);
        } else {
            assert(quadrant_x(q as int, cell_w as int) == 0 * cell_w);
        }
        if q / 2 == 1 {
            assert(quadrant_y(q as int, cell_h as int) == 1 * cell_h);
        } else {
            assert(quadrant_y(q as int, cell_h as int) == 0 * cell_h);
        }
    }
    (qx, qy)
}

/// Derives the cell size of a `columns` by `rows` layout from the source
/// image's dimensions, rejecting dimensions that do not divide evenly.
pub fn cell_geometry(width: u32, height: u32, columns: u32, rows: u32) -> (r: Result<
    (u32, u32),
    AtlasError,
>)
    requires
        columns > 0,
        rows > 0,
    ensures
        match r {
            Ok(c) => width % columns == 0 && height % rows == 0 && c.0 == width / columns && c.1
                == height / rows,
            Err(e) => e == AtlasError::DimensionError && (width % columns != 0 || height % rows
                != 0),
        },
{
    if width % columns != 0 || height % rows != 0 {
        Err(AtlasError::DimensionError)
    } else {
        Ok((width / columns, height / rows))
    }
}

} // verus!
