use vstd::prelude::*;
use vstd::string::StringExecFns;
use crate::errors::AtlasError;
use crate::corner_set::GridCornerAtlas;
use crate::geometry::cell_geometry;
use crate::rgba::{RgbaImage, lemma_cell_bound, lemma_cell_step, lemma_mul_le};

verus! {
/// The RPG-Maker cell-view table: for each corner mask, the four cells of
/// the 4x6 reference grid that fill the composite cell's quadrants, in
/// the order left-up, right-up, left-down, right-down. The entries are
/// vendor convention, transcribed coordinate for coordinate.
pub open spec fn rpg_table(mask: int) -> (((int, int), (int, int), (int, int), (int, int))) {
    if mask == 0 {
        ((0, 0), (1, 0), (0, 1), (1, 1))
    } else if mask == 1 {
        ((3, 5), (1, 0), (0, 1), (1, 1))
    } else if mask == 2 {
        ((0, 0), (0, 5), (0, 1), (1, 1))
    } else if mask == 3 {
        ((1, 5), (2, 5), (0, 1), (1, 1))
    } else if mask == 4 {
        ((0, 0), (1, 0), (3, 2), (1, 1))
    } else if mask == 5 {
        ((3, 3), (1, 0), (3, 4), (1, 1))
    } else if mask == 6 {
        ((0, 0), (0, 5), (3, 2), (1, 1))
    } else if mask == 7 {
        ((3, 1), (2, 5), (3, 4), (1, 1))
    } else if mask == 8 {
        ((0, 0), (1, 0), (0, 1), (0, 2))
    } else if mask == 9 {
        ((3, 5), (1, 0), (0, 1), (0, 2))
    } else if mask == 10 {
        ((0, 0), (0, 3), (0, 1), (0, 4))
    } else if mask == 11 {
        ((1, 5), (2, 1), (0, 1), (0, 4))
    } else if mask == 12 {
        ((0, 0), (1, 0), (1, 2), (2, 2))
    } else if mask == 13 {
        ((3, 3), (1, 0), (3, 0), (2, 2))
    } else if mask == 14 {
        ((0, 0), (0, 3), (1, 2), (2, 0))
    } else {
        ((1, 3), (2, 3), (1, 4), (2, 4))
    }
}
/// Looks the four quadrant source cells for `mask` up in the RPG-Maker
/// cell-view table.
fn rpg_cell_lookup(mask: u8) -> (t: ((u32, u32), (u32, u32), (u32, u32), (u32, u32)))
    requires
        mask < 16,
    ensures
        (t.0.0 as int, t.0.1 as int) == rpg_table(mask as int).0,
        (t.1.0 as int, t.1.1 as int) == rpg_table(mask as int).1,
        (t.2.0 as int, t.2.1 as int) == rpg_table(mask as int).2,
        (t.3.0 as int, t.3.1 as int) == rpg_table(mask as int).3,
        t.0.0 < 4 && t.1.0 < 4 && t.2.0 < 4 && t.3.0 < 4,
        t.0.1 < 6 && t.1.1 < 6 && t.2.1 < 6 && t.3.1 < 6,
{
    if mask == 0 {
        ((0, 0), (1, 0), (0, 1), (1, 1))
    } else if mask == 1 {
        ((3, 5), (1, 0), (0, 1), (1, 1))
    } else if mask == 2 {
        ((0, 0), (0, 5), (0, 1), (1, 1))
    } else if mask == 3 {
        ((1, 5), (2, 5), (0, 1), (1, 1))
    } else if mask == 4 {
        ((0, 0), (1, 0), (3, 2), (1, 1))
    } else if mask == 5 {
        ((3, 3), (1, 0), (3, 4), (1, 1))
    } else if mask == 6 {
        ((0, 0), (0, 5), (3, 2), (1, 1))
    } else if mask == 7 {
        ((3, 1), (2, 5), (3, 4), (1, 1))
    } else if mask == 8 {
        ((0, 0), (1, 0), (0, 1), (0, 2))
    } else if mask == 9 {
        ((3, 5), (1, 0), (0, 1), (0, 2))
    } else if mask == 10 {
        ((0, 0), (0, 3), (0, 1), (0, 4))
    } else if mask == 11 {
        ((1, 5), (2, 1), (0, 1), (0, 4))
    } else if mask == 12 {
        ((0, 0), (1, 0), (1, 2), (2, 2))
    } else if mask == 13 {
        ((3, 3), (1, 0), (3, 0), (2, 2))
    } else if mask == 14 {
        ((0, 0), (0, 3), (1, 2), (2, 0))
    } else {
        ((1, 3), (2, 3), (1, 4), (2, 4))
    }
}

/// The source cell the RPG-Maker cell-view table assigns to quadrant `q`
/// (left-up 0, right-up 1, left-down 2, right-down 3) of mask `mask`.
pub open spec fn rpg_coords(mask: int, q: int) -> (int, int) {
    if q == 0 {
        rpg_table(mask).0
    } else if q == 1 {
        rpg_table(mask).1
    } else if q == 2 {
        rpg_table(mask).2
    } else {
        rpg_table(mask).3
    }
}

/// The table-resolved source rectangle for cell `c` lies inside `src`.
pub open spec fn cell_in_bounds(src: RgbaImage, c: (u32, u32), cell_w: int, cell_h: int) -> bool {
    &&& (c.0 + 1) * cell_w <= src.spec_width()
    &&& (c.1 + 1) * cell_h <= src.spec_height()
}

/// Composes one 2x2-quadrant output cell: quadrant `q` receives the
/// `cell_w`-by-`cell_h` source rectangle at the cell coordinates
/// `coords.q`, in the order left-up, right-up, left-down, right-down.
/// Fails with `OutOfBounds`, copying nothing, if any source rectangle
/// exceeds the source image dimensions.
pub fn extract_cell(
    source: &RgbaImage,
    coords: ((u32, u32), (u32, u32), (u32, u32), (u32, u32)),
    cell_w: u32,
    cell_h: u32,
) -> (r: Result<RgbaImage, AtlasError>)
    requires
        source.wf(),
        2 * cell_w <= u32::MAX,
        2 * cell_h <= u32::MAX,
        (2 * cell_w) * (2 * cell_h) <= usize::MAX,
    ensures
        match r {
            Ok(out) => {
                &&& cell_in_bounds(*source, coords.0, cell_w as int, cell_h as int)
                &&& cell_in_bounds(*source, coords.1, cell_w as int, cell_h as int)
                &&& cell_in_bounds(*source, coords.2, cell_w as int, cell_h as int)
                &&& cell_in_bounds(*source, coords.3, cell_w as int, cell_h as int)
                &&& out.wf()
                &&& out.spec_width() == 2 * cell_w
                &&& out.spec_height() == 2 * cell_h
                &&& forall|i: int, j: int|
                    0 <= i < cell_w && 0 <= j < cell_h ==> #[trigger] out.pix(i, j) == source.pix(
                        coords.0.0 * cell_w + i,
                        coords.0.1 * cell_h + j,
                    )
                &&& forall|i: int, j: int|
                    0 <= i < cell_w && 0 <= j < cell_h ==> #[trigger] out.pix(cell_w + i, j)
                        == source.pix(coords.1.0 * cell_w + i, coords.1.1 * cell_h + j)
                &&& forall|i: int, j: int|
                    0 <= i < cell_w && 0 <= j < cell_h ==> #[trigger] out.pix(i, cell_h + j)
                        == source.pix(coords.2.0 * cell_w + i, coords.2.1 * cell_h + j)
                &&& forall|i: int, j: int|
                    0 <= i < cell_w && 0 <= j < cell_h ==> #[trigger] out.pix(
                        cell_w + i,
                        cell_h + j,
                    ) == source.pix(coords.3.0 * cell_w + i, coords.3.1 * cell_h + j)
            },
            Err(e) => {
                &&& e == AtlasError::OutOfBounds
                &&& !(cell_in_bounds(*source, coords.0, cell_w as int, cell_h as int)
                    && cell_in_bounds(*source, coords.1, cell_w as int, cell_h as int)
                    && cell_in_bounds(*source, coords.2, cell_w as int, cell_h as int)
                    && cell_in_bounds(*source, coords.3, cell_w as int, cell_h as int))
            },
        },
{
    let sw = source.width() as u64;
    let sh = source.height() as u64;
    let cwu = cell_w as u64;
    let chu = cell_h as u64;
    proof {
        lemma_mul_le(coords.0.0 as int + 1, 0x1_0000_0000, cell_w as int, 0xffff_ffff);
        lemma_mul_le(coords.1.0 as int + 1, 0x1_0000_0000, cell_w as int, 0xffff_ffff);
        lemma_mul_le(coords.2.0 as int + 1, 0x1_0000_0000, cell_w as int, 0xffff_ffff);
        lemma_mul_le(coords.3.0 as int + 1, 0x1_0000_0000, cell_w as int, 0xffff_ffff);
        lemma_mul_le(coords.0.1 as int + 1, 0x1_0000_0000, cell_h as int, 0xffff_ffff);
        lemma_mul_le(coords.1.1 as int + 1, 0x1_0000_0000, cell_h as int, 0xffff_ffff);
        lemma_mul_le(coords.2.1 as int + 1, 0x1_0000_0000, cell_h as int, 0xffff_ffff);
        lemma_mul_le(coords.3.1 as int + 1, 0x1_0000_0000, cell_h as int, 0xffff_ffff);
    }
    let ok = (coords.0.0 as u64 + 1) * cwu <= sw && (coords.0.1 as u64 + 1) * chu <= sh
        && (coords.1.0 as u64 + 1) * cwu <= sw && (coords.1.1 as u64 + 1) * chu <= sh
        && (coords.2.0 as u64 + 1) * cwu <= sw && (coords.2.1 as u64 + 1) * chu <= sh
        && (coords.3.0 as u64 + 1) * cwu <= sw && (coords.3.1 as u64 + 1) * chu <= sh;
    if !ok {
        return Err(AtlasError::OutOfBounds);
    }
    proof {
        lemma_cell_step(coords.0.0 as int, cell_w as int);
        lemma_cell_step(coords.1.0 as int, cell_w as int);
        lemma_cell_step(coords.2.0 as int, cell_w as int);
        lemma_cell_step(coords.3.0 as int, cell_w as int);
        lemma_cell_step(coords.0.1 as int, cell_h as int);
        lemma_cell_step(coords.1.1 as int, cell_h as int);
        lemma_cell_step(coords.2.1 as int, cell_h as int);
        lemma_cell_step(coords.3.1 as int, cell_h as int);
    }
    let mut out = RgbaImage::new(2 * cell_w, 2 * cell_h);
    let sx0: u32 = coords.0.0 * cell_w;
    let sy0: u32 = coords.0.1 * cell_h;
    let sx1: u32 = coords.1.0 * cell_w;
    let sy1: u32 = coords.1.1 * cell_h;
    let sx2: u32 = coords.2.0 * cell_w;
    let sy2: u32 = coords.2.1 * cell_h;
    let sx3: u32 = coords.3.0 * cell_w;
    let sy3: u32 = coords.3.1 * cell_h;
    out.copy_rect(source, sx0, sy0, 0, 0, cell_w, cell_h);
    let ghost o0 = out;
    out.copy_rect(source, sx1, sy1, cell_w, 0, cell_w, cell_h);
    let ghost o1 = out;
    out.copy_rect(source, sx2, sy2, 0, cell_h, cell_w, cell_h);
    let ghost o2 = out;
    out.copy_rect(source, sx3, sy3, cell_w, cell_h, cell_w, cell_h);
    proof {
        assert forall|i: int, j: int|
            0 <= i < cell_w && 0 <= j < cell_h implies #[trigger] out.pix(i, j) == source.pix(
            coords.0.0 * cell_w + i,
            coords.0.1 * cell_h + j,
        ) by {
            assert(o0.pix(0 + i, 0 + j) == source.pix(sx0 + i, sy0 + j));
            assert(o1.pix(0 + i, 0 + j) == o0.pix(0 + i, 0 + j));
            assert(o2.pix(0 + i, 0 + j) == o1.pix(0 + i, 0 + j));
            assert(out.pix(0 + i, 0 + j) == o2.pix(0 + i, 0 + j));
        }
        assert forall|i: int, j: int|
            0 <= i < cell_w && 0 <= j < cell_h implies #[trigger] out.pix(cell_w + i, j)
            == source.pix(coords.1.0 * cell_w + i, coords.1.1 * cell_h + j) by {
            assert(o1.pix(cell_w + i, 0 + j) == source.pix(sx1 + i, sy1 + j));
            assert(o2.pix(cell_w + i, 0 + j) == o1.pix(cell_w + i, 0 + j));
            assert(out.pix(cell_w + i, 0 + j) == o2.pix(cell_w + i, 0 + j));
        }
        assert forall|i: int, j: int|
            0 <= i < cell_w && 0 <= j < cell_h implies #[trigger] out.pix(i, cell_h + j)
            == source.pix(coords.2.0 * cell_w + i, coords.2.1 * cell_h + j) by {
            assert(o2.pix(0 + i, cell_h + j) == source.pix(sx2 + i, sy2 + j));
            assert(out.pix(0 + i, cell_h + j) == o2.pix(0 + i, cell_h + j));
        }
        assert forall|i: int, j: int|
            0 <= i < cell_w && 0 <= j < cell_h implies #[trigger] out.pix(cell_w + i, cell_h + j)
            == source.pix(coords.3.0 * cell_w + i, coords.3.1 * cell_h + j) by {
            assert(out.pix(cell_w + i, cell_h + j) == source.pix(sx3 + i, sy3 + j));
        }
    }
    Ok(out)
}

/// `out` is the 2x2-quadrant composite cell that the RPG-Maker cell-view
/// table builds for `mask` out of the 4x6-cell source `src`: each of the
/// four quadrants is a pixel-exact copy of the source cell the table
/// names for it.
pub open spec fn is_rpg_cell_of(src: RgbaImage, mask: int, out: RgbaImage) -> bool {
    let cw = src.spec_width() as int / 4;
    let ch = src.spec_height() as int / 6;
    &&& out.wf()
    &&& out.spec_width() == 2 * cw
    &&& out.spec_height() == 2 * ch
    &&& forall|i: int, j: int|
        0 <= i < cw && 0 <= j < ch ==> #[trigger] out.pix(i, j) == src.pix(
            rpg_coords(mask, 0).0 * cw + i,
            rpg_coords(mask, 0).1 * ch + j,
        )
    &&& forall|i: int, j: int|
        0 <= i < cw && 0 <= j < ch ==> #[trigger] out.pix(cw + i, j) == src.pix(
            rpg_coords(mask, 1).0 * cw + i,
            rpg_coords(mask, 1).1 * ch + j,
        )
    &&& forall|i: int, j: int|
        0 <= i < cw && 0 <= j < ch ==> #[trigger] out.pix(i, ch + j) == src.pix(
            rpg_coords(mask, 2).0 * cw + i,
            rpg_coords(mask, 2).1 * ch + j,
        )
    &&& forall|i: int, j: int|
        0 <= i < cw && 0 <= j < ch ==> #[trigger] out.pix(cw + i, ch + j) == src.pix(
            rpg_coords(mask, 3).0 * cw + i,
            rpg_coords(mask, 3).1 * ch + j,
        )
}

/// Composes the 2x2-quadrant cell for `mask` directly out of an RPG-Maker
/// source: each quadrant is the source cell the cell-view table names.
/// A source whose width does not divide by 4 or whose height does not
/// divide by 6 is rejected before any pixel is copied.
pub fn view_rpg4x6_cell(raw: &RgbaImage, mask: u8) -> (r: Result<RgbaImage, AtlasError>)
    requires
        raw.wf(),
        mask < 16,
    ensures
        match r {
            Ok(out) => raw.spec_width() % 4 == 0 && raw.spec_height() % 6 == 0
                && is_rpg_cell_of(*raw, mask as int, out),
            Err(e) => e == AtlasError::DimensionError && (raw.spec_width() % 4 != 0
                || raw.spec_height() % 6 != 0),
        },
{
    let w = raw.width();
    let h = raw.height();
    let (cw, ch) = match cell_geometry(w, h, 4, 6) {
        Ok(c) => c,
        Err(e) => {
            return Err(e);
        },
    };
    proof {
        raw.lemma_area_bound();
        lemma_mul_le(2 * cw as int, w as int, 2 * ch as int, h as int);
    }
    let t = rpg_cell_lookup(mask);
    proof {
        lemma_cell_bound(t.0.0 as int, 4, cw as int);
        lemma_cell_bound(t.1.0 as int, 4, cw as int);
        lemma_cell_bound(t.2.0 as int, 4, cw as int);
        lemma_cell_bound(t.3.0 as int, 4, cw as int);
        lemma_cell_bound(t.0.1 as int, 6, ch as int);
        lemma_cell_bound(t.1.1 as int, 6, ch as int);
        lemma_cell_bound(t.2.1 as int, 6, ch as int);
        lemma_cell_bound(t.3.1 as int, 6, ch as int);
        lemma_cell_step(t.0.0 as int, cw as int);
        lemma_cell_step(t.1.0 as int, cw as int);
        lemma_cell_step(t.2.0 as int, cw as int);
        lemma_cell_step(t.3.0 as int, cw as int);
        lemma_cell_step(t.0.1 as int, ch as int);
        lemma_cell_step(t.1.1 as int, ch as int);
        lemma_cell_step(t.2.1 as int, ch as int);
        lemma_cell_step(t.3.1 as int, ch as int);
    }
    let out = match extract_cell(raw, t, cw, ch) {
        Ok(c) => c,
        Err(_) => {
            proof {
                assert(false);
            }
            vstd::pervasive::unreached()
        },
    };
    proof {
        assert forall|i: int, j: int| 0 <= i < cw && 0 <= j < ch implies #[trigger] out.pix(i, j)
            == raw.pix(
            rpg_coords(mask as int, 0).0 * cw + i,
            rpg_coords(mask as int, 0).1 * ch + j,
        ) by {
            assert(out.pix(i, j) == raw.pix(t.0.0 * cw + i, t.0.1 * ch + j));
        }
        assert forall|i: int, j: int|
            0 <= i < cw && 0 <= j < ch implies #[trigger] out.pix(cw + i, j) == raw.pix(
            rpg_coords(mask as int, 1).0 * cw + i,
            rpg_coords(mask as int, 1).1 * ch + j,
        ) by {
            assert(out.pix(cw + i, j) == raw.pix(t.1.0 * cw + i, t.1.1 * ch + j));
        }
        assert forall|i: int, j: int|
            0 <= i < cw && 0 <= j < ch implies #[trigger] out.pix(i, ch + j) == raw.pix(
            rpg_coords(mask as int, 2).0 * cw + i,
            rpg_coords(mask as int, 2).1 * ch + j,
        ) by {
            assert(out.pix(i, ch + j) == raw.pix(t.2.0 * cw + i, t.2.1 * ch + j));
        }
        assert forall|i: int, j: int|
            0 <= i < cw && 0 <= j < ch implies #[trigger] out.pix(cw + i, ch + j) == raw.pix(
            rpg_coords(mask as int, 3).0 * cw + i,
            rpg_coords(mask as int, 3).1 * ch + j,
        ) by {
            assert(out.pix(cw + i, ch + j) == raw.pix(t.3.0 * cw + i, t.3.1 * ch + j));
        }
    }
    Ok(out)
}
/// The RPG-Maker expanded remap table: for each cell of the 24x8 complete
/// sheet, the cell of the 4x6 reference grid it is copied from. The
/// entries are vendor convention, transcribed coordinate for coordinate.
pub open spec fn complete_coords(x: int, y: int) -> (int, int) {
    if x == 0 {
        if y == 0 {
            (0, 2)
        } else if y == 1 {
            (0, 3)
        } else if y == 2 {
            (0, 4)
        } else if y == 3 {
            (0, 3)
        } else if y == 4 {
            (0, 4)
        } else if y == 5 {
            (0, 5)
        } else if y == 6 {
            (0, 2)
        } else {
            (0, 5)
        }
    } else if x == 1 {
        if y == 0 {
            (3, 2)
        } else if y == 1 {
            (3, 3)
        } else if y == 2 {
            (3, 4)
        } else if y == 3 {
            (3, 3)
        } else if y == 4 {
            (3, 4)
        } else if y == 5 {
            (3, 5)
        } else if y == 6 {
            (3, 2)
        } else {
            (3, 5)
        }
    } else if x == 2 {
        if y == 0 {
            (0, 2)
        } else if y == 1 {
            (0, 3)
        } else if y == 2 {
            (0, 4)
        } else if y == 3 {
            (0, 3)
        } else if y == 4 {
            (0, 4)
        } else if y == 5 {
            (0, 5)
        } else if y == 6 {
            (0, 2)
        } else {
            (0, 5)
        }
    } else if x == 3 {
        if y == 0 {
            (1, 2)
        } else if y == 1 {
            (3, 1)
        } else if y == 2 {
            (3, 0)
        } else if y == 3 {
            (3, 1)
        } else if y == 4 {
            (3, 0)
        } else if y == 5 {
            (1, 5)
        } else if y == 6 {
            (1, 2)
        } else {
            (1, 5)
        }
    } else if x == 4 {
        if y == 0 {
            (2, 2)
        } else if y == 1 {
            (2, 1)
        } else if y == 2 {
            (2, 0)
        } else if y == 3 {
            (2, 1)
        } else if y == 4 {
            (2, 0)
        } else if y == 5 {
            (2, 5)
        } else if y == 6 {
            (2, 2)
        } else {
            (2, 5)
        }
    } else if x == 5 {
        if y == 0 {
            (1, 2)
        } else if y == 1 {
            (3, 1)
        } else if y == 2 {
            (3, 0)
        } else if y == 3 {
            (3, 1)
        } else if y == 4 {
            (3, 0)
        } else if y == 5 {
            (1, 5)
        } else if y == 6 {
            (1, 2)
        } else {
            (1, 5)
        }
    } else if x == 6 {
        if y == 0 {
            (2, 2)
        } else if y == 1 {
            (2, 1)
        } else if y == 2 {
            (2, 0)
        } else if y == 3 {
            (2, 1)
        } else if y == 4 {
            (2, 0)
        } else if y == 5 {
            (2, 5)
        } else if y == 6 {
            (2, 2)
        } else {
            (2, 5)
        }
    } else if x == 7 {
        if y == 0 {
            (3, 2)
        } else if y == 1 {
            (3, 3)
        } else if y == 2 {
            (3, 4)
        } else if y == 3 {
            (3, 3)
        } else if y == 4 {
            (3, 4)
        } else if y == 5 {
            (3, 5)
        } else if y == 6 {
            (3, 2)
        } else {
            (3, 5)
        }
    } else if x == 8 {
        if y == 0 {
            (2, 4)
        } else if y == 1 {
            (2, 1)
        } else if y == 2 {
            (0, 4)
        } else if y == 3 {
            (0, 3)
        } else if y == 4 {
            (0, 4)
        } else if y == 5 {
            (0, 3)
        } else if y == 6 {
            (2, 0)
        } else {
            (2, 3)
        }
    } else if x == 9 {
        if y == 0 {
            (3, 0)
        } else if y == 1 {
            (3, 1)
        } else if y == 2 {
            (3, 0)
        } else if y == 3 {
            (1, 3)
        } else if y == 4 {
            (1, 4)
        } else if y == 5 {
            (3, 1)
        } else if y == 6 {
            (3, 0)
        } else {
            (3, 1)
        }
    } else if x == 10 {
        if y == 0 {
            (2, 2)
        } else if y == 1 {
            (2, 1)
        } else if y == 2 {
            (2, 0)
        } else if y == 3 {
            (2, 3)
        } else if y == 4 {
            (2, 4)
        } else if y == 5 {
            (2, 1)
        } else if y == 6 {
            (2, 0)
        } else {
            (2, 5)
        }
    } else if x == 11 {
        if y == 0 {
            (1, 2)
        } else if y == 1 {
            (1, 3)
        } else if y == 2 {
            (1, 4)
        } else if y == 3 {
            (1, 3)
        } else if y == 4 {
            (1, 4)
        } else if y == 5 {
            (1, 3)
        } else if y == 6 {
            (1, 4)
        } else {
            (1, 5)
        }
    } else if x == 12 {
        if y == 0 {
            (2, 2)
        } else if y == 1 {
            (2, 3)
        } else if y == 2 {
            (2, 4)
        } else if y == 3 {
            (2, 3)
        } else if y == 4 {
            (2, 4)
        } else if y == 5 {
            (2, 3)
        } else if y == 6 {
            (2, 4)
        } else {
            (2, 5)
        }
    } else if x == 13 {
        if y == 0 {
            (1, 2)
        } else if y == 1 {
            (3, 1)
        } else if y == 2 {
            (3, 0)
        } else if y == 3 {
            (1, 3)
        } else if y == 4 {
            (1, 4)
        } else if y == 5 {
            (3, 1)
        } else if y == 6 {
            (3, 0)
        } else {
            (1, 5)
        }
    } else if x == 14 {
        if y == 0 {
            (2, 0)
        } else if y == 1 {
            (2, 1)
        } else if y == 2 {
            (2, 0)
        } else if y == 3 {
            (2, 3)
        } else if y == 4 {
            (2, 4)
        } else if y == 5 {
            (2, 1)
        } else if y == 6 {
            (2, 0)
        } else {
            (2, 1)
        }
    } else if x == 15 {
        if y == 0 {
            (1, 4)
        } else if y == 1 {
            (3, 1)
        } else if y == 2 {
            (3, 4)
        } else if y == 3 {
            (3, 3)
        } else if y == 4 {
            (3, 4)
        } else if y == 5 {
            (3, 3)
        } else if y == 6 {
            (3, 0)
        } else {
            (1, 3)
        }
    } else if x == 16 {
        if y == 0 {
            (0, 2)
        } else if y == 1 {
            (0, 3)
        } else if y == 2 {
            (0, 4)
        } else if y == 3 {
            (0, 3)
        } else if y == 4 {
            (2, 0)
        } else if y == 5 {
            (2, 1)
        } else if y == 6 {
            (0, 4)
        } else {
            (0, 5)
        }
    } else if x == 17 {
        if y == 0 {
            (1, 2)
        } else if y == 1 {
            (1, 3)
        } else if y == 2 {
            (1, 4)
        } else if y == 3 {
            (1, 3)
        } else if y == 4 {
            (1, 4)
        } else if y == 5 {
            (1, 3)
        } else if y == 6 {
            (1, 4)
        } else {
            (1, 5)
        }
    } else if x == 18 {
        if y == 0 {
            (2, 0)
        } else if y == 1 {
            (2, 3)
        } else if y == 2 {
            (2, 0)
        } else if y == 3 {
            (2, 3)
        } else if y == 4 {
            (2, 4)
        } else if y == 5 {
            (2, 3)
        } else if y == 6 {
            (2, 4)
        } else {
            (2, 5)
        }
    } else if x == 19 {
        if y == 0 {
            (3, 0)
        } else if y == 1 {
            (1, 3)
        } else if y == 2 {
            (1, 4)
        } else if y == 3 {
            (3, 1)
        } else if y == 4 {
            (1, 4)
        } else if y == 5 {
            (1, 3)
        } else if y == 6 {
            (1, 4)
        } else {
            (1, 5)
        }
    } else if x == 20 {
        if y == 0 {
            (2, 2)
        } else if y == 1 {
            (2, 3)
        } else if y == 2 {
            (0, 0)
        } else if y == 3 {
            (0, 1)
        } else if y == 4 {
            (2, 4)
        } else if y == 5 {
            (2, 1)
        } else if y == 6 {
            (2, 4)
        } else {
            (2, 1)
        }
    } else if x == 21 {
        if y == 0 {
            (1, 2)
        } else if y == 1 {
            (1, 3)
        } else if y == 2 {
            (1, 0)
        } else if y == 3 {
            (1, 1)
        } else if y == 4 {
            (3, 0)
        } else if y == 5 {
            (1, 3)
        } else if y == 6 {
            (1, 4)
        } else {
            (3, 1)
        }
    } else if x == 22 {
        if y == 0 {
            (2, 2)
        } else if y == 1 {
            (2, 3)
        } else if y == 2 {
            (2, 4)
        } else if y == 3 {
            (2, 3)
        } else if y == 4 {
            (2, 4)
        } else if y == 5 {
            (2, 3)
        } else if y == 6 {
            (2, 4)
        } else {
            (2, 5)
        }
    } else if x == 23 {
        if y == 0 {
            (3, 2)
        } else if y == 1 {
            (3, 3)
        } else if y == 2 {
            (3, 0)
        } else if y == 3 {
            (3, 1)
        } else if y == 4 {
            (3, 4)
        } else if y == 5 {
            (3, 3)
        } else if y == 6 {
            (3, 4)
        } else {
            (3, 5)
        }
    } else {
        (0, 0)
    }
}

/// Resolves one cell of the 24x8 complete sheet to the cell of the 4x6
/// reference grid it replicates.
pub fn rpg4x6_to_complete(x: u32, y: u32) -> (r: (u32, u32))
    requires
        x < 24,
        y < 8,
    ensures
        r.0 == complete_coords(x as int, y as int).0,
        r.1 == complete_coords(x as int, y as int).1,
        r.0 < 4,
        r.1 < 6,
{
    if x == 0 {
        if y == 0 {
            (0, 2)
        } else if y == 1 {
            (0, 3)
        } else if y == 2 {
            (0, 4)
        } else if y == 3 {
            (0, 3)
        } else if y == 4 {
            (0, 4)
        } else if y == 5 {
            (0, 5)
        } else if y == 6 {
            (0, 2)
        } else {
            (0, 5)
        }
    } else if x == 1 {
        if y == 0 {
            (3, 2)
        } else if y == 1 {
            (3, 3)
        } else if y == 2 {
            (3, 4)
        } else if y == 3 {
            (3, 3)
        } else if y == 4 {
            (3, 4)
        } else if y == 5 {
            (3, 5)
        } else if y == 6 {
            (3, 2)
        } else {
            (3, 5)
        }
    } else if x == 2 {
        if y == 0 {
            (0, 2)
        } else if y == 1 {
            (0, 3)
        } else if y == 2 {
            (0, 4)
        } else if y == 3 {
            (0, 3)
        } else if y == 4 {
            (0, 4)
        } else if y == 5 {
            (0, 5)
        } else if y == 6 {
            (0, 2)
        } else {
            (0, 5)
        }
    } else if x == 3 {
        if y == 0 {
            (1, 2)
        } else if y == 1 {
            (3, 1)
        } else if y == 2 {
            (3, 0)
        } else if y == 3 {
            (3, 1)
        } else if y == 4 {
            (3, 0)
        } else if y == 5 {
            (1, 5)
        } else if y == 6 {
            (1, 2)
        } else {
            (1, 5)
        }
    } else if x == 4 {
        if y == 0 {
            (2, 2)
        } else if y == 1 {
            (2, 1)
        } else if y == 2 {
            (2, 0)
        } else if y == 3 {
            (2, 1)
        } else if y == 4 {
            (2, 0)
        } else if y == 5 {
            (2, 5)
        } else if y == 6 {
            (2, 2)
        } else {
            (2, 5)
        }
    } else if x == 5 {
        if y == 0 {
            (1, 2)
        } else if y == 1 {
            (3, 1)
        } else if y == 2 {
            (3, 0)
        } else if y == 3 {
            (3, 1)
        } else if y == 4 {
            (3, 0)
        } else if y == 5 {
            (1, 5)
        } else if y == 6 {
            (1, 2)
        } else {
            (1, 5)
        }
    } else if x == 6 {
        if y == 0 {
            (2, 2)
        } else if y == 1 {
            (2, 1)
        } else if y == 2 {
            (2, 0)
        } else if y == 3 {
            (2, 1)
        } else if y == 4 {
            (2, 0)
        } else if y == 5 {
            (2, 5)
        } else if y == 6 {
            (2, 2)
        } else {
            (2, 5)
        }
    } else if x == 7 {
        if y == 0 {
            (3, 2)
        } else if y == 1 {
            (3, 3)
        } else if y == 2 {
            (3, 4)
        } else if y == 3 {
            (3, 3)
        } else if y == 4 {
            (3, 4)
        } else if y == 5 {
            (3, 5)
        } else if y == 6 {
            (3, 2)
        } else {
            (3, 5)
        }
    } else if x == 8 {
        if y == 0 {
            (2, 4)
        } else if y == 1 {
            (2, 1)
        } else if y == 2 {
            (0, 4)
        } else if y == 3 {
            (0, 3)
        } else if y == 4 {
            (0, 4)
        } else if y == 5 {
            (0, 3)
        } else if y == 6 {
            (2, 0)
        } else {
            (2, 3)
        }
    } else if x == 9 {
        if y == 0 {
            (3, 0)
        } else if y == 1 {
            (3, 1)
        } else if y == 2 {
            (3, 0)
        } else if y == 3 {
            (1, 3)
        } else if y == 4 {
            (1, 4)
        } else if y == 5 {
            (3, 1)
        } else if y == 6 {
            (3, 0)
        } else {
            (3, 1)
        }
    } else if x == 10 {
        if y == 0 {
            (2, 2)
        } else if y == 1 {
            (2, 1)
        } else if y == 2 {
            (2, 0)
        } else if y == 3 {
            (2, 3)
        } else if y == 4 {
            (2, 4)
        } else if y == 5 {
            (2, 1)
        } else if y == 6 {
            (2, 0)
        } else {
            (2, 5)
        }
    } else if x == 11 {
        if y == 0 {
            (1, 2)
        } else if y == 1 {
            (1, 3)
        } else if y == 2 {
            (1, 4)
        } else if y == 3 {
            (1, 3)
        } else if y == 4 {
            (1, 4)
        } else if y == 5 {
            (1, 3)
        } else if y == 6 {
            (1, 4)
        } else {
            (1, 5)
        }
    } else if x == 12 {
        if y == 0 {
            (2, 2)
        } else if y == 1 {
            (2, 3)
        } else if y == 2 {
            (2, 4)
        } else if y == 3 {
            (2, 3)
        } else if y == 4 {
            (2, 4)
        } else if y == 5 {
            (2, 3)
        } else if y == 6 {
            (2, 4)
        } else {
            (2, 5)
        }
    } else if x == 13 {
        if y == 0 {
            (1, 2)
        } else if y == 1 {
            (3, 1)
        } else if y == 2 {
            (3, 0)
        } else if y == 3 {
            (1, 3)
        } else if y == 4 {
            (1, 4)
        } else if y == 5 {
            (3, 1)
        } else if y == 6 {
            (3, 0)
        } else {
            (1, 5)
        }
    } else if x == 14 {
        if y == 0 {
            (2, 0)
        } else if y == 1 {
            (2, 1)
        } else if y == 2 {
            (2, 0)
        } else if y == 3 {
            (2, 3)
        } else if y == 4 {
            (2, 4)
        } else if y == 5 {
            (2, 1)
        } else if y == 6 {
            (2, 0)
        } else {
            (2, 1)
        }
    } else if x == 15 {
        if y == 0 {
            (1, 4)
        } else if y == 1 {
            (3, 1)
        } else if y == 2 {
            (3, 4)
        } else if y == 3 {
            (3, 3)
        } else if y == 4 {
            (3, 4)
        } else if y == 5 {
            (3, 3)
        } else if y == 6 {
            (3, 0)
        } else {
            (1, 3)
        }
    } else if x == 16 {
        if y == 0 {
            (0, 2)
        } else if y == 1 {
            (0, 3)
        } else if y == 2 {
            (0, 4)
        } else if y == 3 {
            (0, 3)
        } else if y == 4 {
            (2, 0)
        } else if y == 5 {
            (2, 1)
        } else if y == 6 {
            (0, 4)
        } else {
            (0, 5)
        }
    } else if x == 17 {
        if y == 0 {
            (1, 2)
        } else if y == 1 {
            (1, 3)
        } else if y == 2 {
            (1, 4)
        } else if y == 3 {
            (1, 3)
        } else if y == 4 {
            (1, 4)
        } else if y == 5 {
            (1, 3)
        } else if y == 6 {
            (1, 4)
        } else {
            (1, 5)
        }
    } else if x == 18 {
        if y == 0 {
            (2, 0)
        } else if y == 1 {
            (2, 3)
        } else if y == 2 {
            (2, 0)
        } else if y == 3 {
            (2, 3)
        } else if y == 4 {
            (2, 4)
        } else if y == 5 {
            (2, 3)
        } else if y == 6 {
            (2, 4)
        } else {
            (2, 5)
        }
    } else if x == 19 {
        if y == 0 {
            (3, 0)
        } else if y == 1 {
            (1, 3)
        } else if y == 2 {
            (1, 4)
        } else if y == 3 {
            (3, 1)
        } else if y == 4 {
            (1, 4)
        } else if y == 5 {
            (1, 3)
        } else if y == 6 {
            (1, 4)
        } else {
            (1, 5)
        }
    } else if x == 20 {
        if y == 0 {
            (2, 2)
        } else if y == 1 {
            (2, 3)
        } else if y == 2 {
            (0, 0)
        } else if y == 3 {
            (0, 1)
        } else if y == 4 {
            (2, 4)
        } else if y == 5 {
            (2, 1)
        } else if y == 6 {
            (2, 4)
        } else {
            (2, 1)
        }
    } else if x == 21 {
        if y == 0 {
            (1, 2)
        } else if y == 1 {
            (1, 3)
        } else if y == 2 {
            (1, 0)
        } else if y == 3 {
            (1, 1)
        } else if y == 4 {
            (3, 0)
        } else if y == 5 {
            (1, 3)
        } else if y == 6 {
            (1, 4)
        } else {
            (3, 1)
        }
    } else if x == 22 {
        if y == 0 {
            (2, 2)
        } else if y == 1 {
            (2, 3)
        } else if y == 2 {
            (2, 4)
        } else if y == 3 {
            (2, 3)
        } else if y == 4 {
            (2, 4)
        } else if y == 5 {
            (2, 3)
        } else if y == 6 {
            (2, 4)
        } else {
            (2, 5)
        }
    } else if x == 23 {
        if y == 0 {
            (3, 2)
        } else if y == 1 {
            (3, 3)
        } else if y == 2 {
            (3, 0)
        } else if y == 3 {
            (3, 1)
        } else if y == 4 {
            (3, 4)
        } else if y == 5 {
            (3, 3)
        } else if y == 6 {
            (3, 4)
        } else {
            (3, 5)
        }
    } else {
        (0, 0)
    }
}

/// `out` is the 24x8-cell complete sheet materialized from the 4x6-cell
/// source `src`, for cells of `cw` by `ch` pixels: every sheet cell is a
/// copy of the reference cell the remap table names for its position.
pub open spec fn is_complete_sheet_of(src: RgbaImage, cw: int, ch: int, out: RgbaImage) -> bool {
    &&& out.wf()
    &&& out.spec_width() == 24 * cw
    &&& out.spec_height() == 8 * ch
    &&& forall|x: int, y: int, a: int, b: int|
        0 <= x < 24 && 0 <= y < 8 && 0 <= a < cw && 0 <= b < ch ==> #[trigger] out.pix(
            x * cw + a,
            y * ch + b,
        ) == src.pix(complete_coords(x, y).0 * cw + a, complete_coords(x, y).1 * ch + b)
}

/// `atlas` is the canonical 16-slot strip decoded from the RPG-Maker source
/// `src`: slot `m` holds the 2x2-quadrant composite cell the cell-view
/// table builds for mask `m`, quadrant by quadrant.
pub open spec fn is_standard_atlas_of(src: RgbaImage, atlas: GridCornerAtlas) -> bool {
    let cw = src.spec_width() as int / 4;
    let ch = src.spec_height() as int / 6;
    &&& atlas.wf()
    &&& atlas.cell_w == 2 * cw
    &&& atlas.cell_h == 2 * ch
    &&& forall|m: int, i: int, j: int|
        0 <= m < 16 && 0 <= i < cw && 0 <= j < ch ==> #[trigger] atlas.image.pix(
            m * (2 * cw) + i,
            j,
        ) == src.pix(rpg_coords(m, 0).0 * cw + i, rpg_coords(m, 0).1 * ch + j)
    &&& forall|m: int, i: int, j: int|
        0 <= m < 16 && 0 <= i < cw && 0 <= j < ch ==> #[trigger] atlas.image.pix(
            m * (2 * cw) + cw + i,
            j,
        ) == src.pix(rpg_coords(m, 1).0 * cw + i, rpg_coords(m, 1).1 * ch + j)
    &&& forall|m: int, i: int, j: int|
        0 <= m < 16 && 0 <= i < cw && 0 <= j < ch ==> #[trigger] atlas.image.pix(
            m * (2 * cw) + i,
            ch + j,
        ) == src.pix(rpg_coords(m, 2).0 * cw + i, rpg_coords(m, 2).1 * ch + j)
    &&& forall|m: int, i: int, j: int|
        0 <= m < 16 && 0 <= i < cw && 0 <= j < ch ==> #[trigger] atlas.image.pix(
            m * (2 * cw) + cw + i,
            ch + j,
        ) == src.pix(rpg_coords(m, 3).0 * cw + i, rpg_coords(m, 3).1 * ch + j)
}

/// A reference to an RPG-Maker-layout corner-tile sheet stored under a
/// workspace: its file name and the composite cell size it yields.
#[derive(Clone, Debug, Ord, PartialOrd, Eq, PartialEq, Hash)]
pub struct GridCornerRMVXFile {
    /// The sheet's file name below the workspace root.
    pub key: String,
    /// The width in pixels of one composite output cell.
    pub cell_w: u32,
    /// The height in pixels of one composite output cell.
    pub cell_h: u32,
}

/// An RPG-Maker corner-tile sheet held in memory together with its cell size.
#[derive(Clone, Debug)]
pub struct GridCornerRMXP {
    /// The sheet's pixels.
    pub image: RgbaImage,
    /// The width in pixels of one source cell.
    pub cell_w: u32,
    /// The height in pixels of one source cell.
    pub cell_h: u32,
}

impl GridCornerRMVXFile {
    /// Records a sheet reference under `key` with the given composite
    /// cell size.
    pub fn new(key: &str, width: u32, height: u32) -> (r: GridCornerRMVXFile)
        ensures
            r.key@ == key@,
            r.cell_w == width,
            r.cell_h == height,
    {
        GridCornerRMVXFile { key: key.to_owned(), cell_w: width, cell_h: height }
    }

    /// The sheet's file name below the workspace root.
    pub fn get_key(&self) -> (r: &str)
        ensures
            r@ == self.key@,
    {
        self.key.as_str()
    }

    /// The sheet's location: the workspace root joined with the file name.
    pub fn get_path(&self, root: &str) -> (r: String)
        ensures
            r@ == root@ + "/"@ + self.key@,
    {
        let mut s = root.to_owned();
        s.append("/");
        s.append(self.key.as_str());
        s
    }

    /// Decodes an RPG-Maker source into the canonical 16-slot strip: slot `m`
    /// receives the composite cell the cell-view table builds for mask `m`.
    /// A source that does not divide into a 4x6 cell grid matching this
    /// reference's cell size is rejected before any pixel is copied.
    pub fn as_standard(&self, key: &str, image: &RgbaImage) -> (r: Result<
        GridCornerAtlas,
        AtlasError,
    >)
        requires
            image.wf(),
            16 * self.cell_w <= u32::MAX,
            16 * self.cell_w * self.cell_h <= usize::MAX,
        ensures
            match r {
                Ok(atlas) => {
                    &&& image.spec_width() % 4 == 0
                    &&& image.spec_height() % 6 == 0
                    &&& self.cell_w == 2 * (image.spec_width() as int / 4)
                    &&& self.cell_h == 2 * (image.spec_height() as int / 6)
                    &&& atlas.key@ == key@
                    &&& atlas.cell_w == self.cell_w
                    &&& atlas.cell_h == self.cell_h
                    &&& is_standard_atlas_of(*image, atlas)
                },
                Err(e) => {
                    &&& e == AtlasError::DimensionError
                    &&& !(image.spec_width() % 4 == 0 && image.spec_height() % 6 == 0
                        && self.cell_w == 2 * (image.spec_width() as int / 4) && self.cell_h == 2
                        * (image.spec_height() as int / 6))
                },
            },
    {
        let w = image.width();
        let h = image.height();
        if w % 4 != 0 || h % 6 != 0 {
            return Err(AtlasError::DimensionError);
        }
        let cw = w / 4;
        let ch = h / 6;
        if self.cell_w != 2 * cw || self.cell_h != 2 * ch {
            return Err(AtlasError::DimensionError);
        }
        let mut strip = RgbaImage::new(16 * self.cell_w, self.cell_h);
        let mut m: u8 = 0;
        while m < 16
            invariant
                m <= 16,
                image.wf(),
                image.spec_width() % 4 == 0,
                image.spec_height() % 6 == 0,
                cw == image.spec_width() / 4,
                ch == image.spec_height() / 6,
                self.cell_w == 2 * cw,
                self.cell_h == 2 * ch,
                16 * self.cell_w <= u32::MAX,
                strip.wf(),
                strip.spec_width() == 16 * self.cell_w,
                strip.spec_height() == self.cell_h,
                forall|m2: int, i: int, j: int|
                    0 <= m2 < m && 0 <= i < cw && 0 <= j < ch ==> #[trigger] strip.pix(
                        m2 * (2 * cw as int) + i,
                        j,
                    ) == image.pix(rpg_coords(m2, 0).0 * cw + i, rpg_coords(m2, 0).1 * ch + j),
                forall|m2: int, i: int, j: int|
                    0 <= m2 < m && 0 <= i < cw && 0 <= j < ch ==> #[trigger] strip.pix(
                        m2 * (2 * cw as int) + cw + i,
                        j,
                    ) == image.pix(rpg_coords(m2, 1).0 * cw + i, rpg_coords(m2, 1).1 * ch + j),
                forall|m2: int, i: int, j: int|
                    0 <= m2 < m && 0 <= i < cw && 0 <= j < ch ==> #[trigger] strip.pix(
                        m2 * (2 * cw as int) + i,
                        ch + j,
                    ) == image.pix(rpg_coords(m2, 2).0 * cw + i, rpg_coords(m2, 2).1 * ch + j),
                forall|m2: int, i: int, j: int|
                    0 <= m2 < m && 0 <= i < cw && 0 <= j < ch ==> #[trigger] strip.pix(
                        m2 * (2 * cw as int) + cw + i,
                        ch + j,
                    ) == image.pix(rpg_coords(m2, 3).0 * cw + i, rpg_coords(m2, 3).1 * ch + j),
            decreases 16 - m,
        {
            let cell = match view_rpg4x6_cell(image, m) {
                Ok(c) => c,
                Err(_) => {
                    proof {
                        assert(false);
                    }
                    vstd::pervasive::unreached()
                },
            };
            proof {
                lemma_cell_bound(m as int, 16, self.cell_w as int);
            }
            let dxv: u32 = (m as u32) * self.cell_w;
            let ghost pre = strip;
            strip.copy_rect(&cell, 0, 0, dxv, 0, self.cell_w, self.cell_h);
            proof {
                assert forall|m2: int, i: int, j: int|
                    0 <= m2 < m + 1 && 0 <= i < cw && 0 <= j < ch implies #[trigger] strip.pix(
                    m2 * (2 * cw as int) + i,
                    j,
                ) == image.pix(rpg_coords(m2, 0).0 * cw + i, rpg_coords(m2, 0).1 * ch + j) by {
                    if m2 == m {
                        assert(strip.pix(dxv + i, 0 + j) == cell.pix(0 + i, 0 + j));
                        assert(m2 * (2 * cw as int) + i == dxv + i);
                    } else {
                        lemma_cell_bound(m2, m as int, self.cell_w as int);
                        assert(m2 * (2 * cw as int) == m2 * (self.cell_w as int));
                        assert(strip.pix(m2 * (2 * cw as int) + i, j) == pre.pix(
                            m2 * (2 * cw as int) + i,
                            j,
                        ));
                    }
                }
                assert forall|m2: int, i: int, j: int|
                    0 <= m2 < m + 1 && 0 <= i < cw && 0 <= j < ch implies #[trigger] strip.pix(
                    m2 * (2 * cw as int) + cw + i,
                    j,
                ) == image.pix(rpg_coords(m2, 1).0 * cw + i, rpg_coords(m2, 1).1 * ch + j) by {
                    if m2 == m {
                        assert(strip.pix(dxv + (cw + i), 0 + j) == cell.pix(0 + (cw + i), 0 + j));
                        assert(cell.pix(cw + i, j) == image.pix(
                            rpg_coords(m2, 1).0 * cw + i,
                            rpg_coords(m2, 1).1 * ch + j,
                        ));
                        assert(m2 * (2 * cw as int) + cw + i == dxv + (cw + i));
                    } else {
                        lemma_cell_bound(m2, m as int, self.cell_w as int);
                        assert(m2 * (2 * cw as int) == m2 * (self.cell_w as int));
                        assert(strip.pix(m2 * (2 * cw as int) + cw + i, j) == pre.pix(
                            m2 * (2 * cw as int) + cw + i,
                            j,
                        ));
                    }
                }
                assert forall|m2: int, i: int, j: int|
                    0 <= m2 < m + 1 && 0 <= i < cw && 0 <= j < ch implies #[trigger] strip.pix(
                    m2 * (2 * cw as int) + i,
                    ch + j,
                ) == image.pix(rpg_coords(m2, 2).0 * cw + i, rpg_coords(m2, 2).1 * ch + j) by {
                    if m2 == m {
                        assert(strip.pix(dxv + i, 0 + (ch + j)) == cell.pix(0 + i, 0 + (ch + j)));
                        assert(cell.pix(i, ch + j) == image.pix(
                            rpg_coords(m2, 2).0 * cw + i,
                            rpg_coords(m2, 2).1 * ch + j,
                        ));
                        assert(m2 * (2 * cw as int) + i == dxv + i);
                    } else {
                        lemma_cell_bound(m2, m as int, self.cell_w as int);
                        assert(m2 * (2 * cw as int) == m2 * (self.cell_w as int));
                        assert(strip.pix(m2 * (2 * cw as int) + i, ch + j) == pre.pix(
                            m2 * (2 * cw as int) + i,
                            ch + j,
                        ));
                    }
                }
                assert forall|m2: int, i: int, j: int|
                    0 <= m2 < m + 1 && 0 <= i < cw && 0 <= j < ch implies #[trigger] strip.pix(
                    m2 * (2 * cw as int) + cw + i,
                    ch + j,
                ) == image.pix(rpg_coords(m2, 3).0 * cw + i, rpg_coords(m2, 3).1 * ch + j) by {
                    if m2 == m {
                        assert(strip.pix(dxv + (cw + i), 0 + (ch + j)) == cell.pix(
                            0 + (cw + i),
                            0 + (ch + j),
                        ));
                        assert(cell.pix(cw + i, ch + j) == image.pix(
                            rpg_coords(m2, 3).0 * cw + i,
                            rpg_coords(m2, 3).1 * ch + j,
                        ));
                        assert(m2 * (2 * cw as int) + cw + i == dxv + (cw + i));
                    } else {
                        lemma_cell_bound(m2, m as int, self.cell_w as int);
                        assert(m2 * (2 * cw as int) == m2 * (self.cell_w as int));
                        assert(strip.pix(m2 * (2 * cw as int) + cw + i, ch + j) == pre.pix(
                            m2 * (2 * cw as int) + cw + i,
                            ch + j,
                        ));
                    }
                }
            }
            m = m + 1;
        }
        let mut count: Vec<u8> = Vec::new();
        while count.len() < 16
            invariant
                count@.len() <= 16,
            decreases 16 - count@.len(),
        {
            count.push(1);
        }
        Ok(GridCornerAtlas {
            key: key.to_owned(),
            cell_w: self.cell_w,
            cell_h: self.cell_h,
            count,
            image: strip,
        })
    }

    /// Materializes the 24x8-cell complete sheet from an RPG-Maker source of
    /// `width`-by-`height` cells: every sheet cell is one whole copy of the
    /// reference cell the remap table names, not a quadrant composite.
    pub fn make_complete(raw: &RgbaImage, width: u32, height: u32) -> (out: RgbaImage)
        requires
            raw.wf(),
            4 * width <= raw.spec_width(),
            6 * height <= raw.spec_height(),
            24 * width <= u32::MAX,
            8 * height <= u32::MAX,
            (24 * width) * (8 * height) <= usize::MAX,
        ensures
            is_complete_sheet_of(*raw, width as int, height as int, out),
    {
        let mut out = RgbaImage::new(24 * width, 8 * height);
        let mut x: u32 = 0;
        while x < 24
            invariant
                x <= 24,
                raw.wf(),
                4 * width <= raw.spec_width(),
                6 * height <= raw.spec_height(),
                out.wf(),
                out.spec_width() == 24 * width,
                out.spec_height() == 8 * height,
                forall|x2: int, y2: int, a: int, b: int|
                    0 <= x2 < x && 0 <= y2 < 8 && 0 <= a < width && 0 <= b < height
                        ==> #[trigger] out.pix(x2 * width + a, y2 * height + b) == raw.pix(
                        complete_coords(x2, y2).0 * width + a,
                        complete_coords(x2, y2).1 * height + b,
                    ),
            decreases 24 - x,
        {
            let mut y: u32 = 0;
            while y < 8
                invariant
                    x < 24,
                    y <= 8,
                    raw.wf(),
                    4 * width <= raw.spec_width(),
                    6 * height <= raw.spec_height(),
                    out.wf(),
                    out.spec_width() == 24 * width,
                    out.spec_height() == 8 * height,
                    forall|x2: int, y2: int, a: int, b: int|
                        0 <= x2 < x && 0 <= y2 < 8 && 0 <= a < width && 0 <= b < height
                            ==> #[trigger] out.pix(x2 * width + a, y2 * height + b) == raw.pix(
                            complete_coords(x2, y2).0 * width + a,
                            complete_coords(x2, y2).1 * height + b,
                        ),
                    forall|y2: int, a: int, b: int|
                        0 <= y2 < y && 0 <= a < width && 0 <= b < height
                            ==> #[trigger] out.pix(x * width + a, y2 * height + b) == raw.pix(
                            complete_coords(x as int, y2).0 * width + a,
                            complete_coords(x as int, y2).1 * height + b,
                        ),
                decreases 8 - y,
            {
                let c = rpg4x6_to_complete(x, y);
                proof {
                    lemma_cell_bound(c.0 as int, 4, width as int);
                    lemma_cell_bound(c.1 as int, 6, height as int);
                    lemma_cell_bound(x as int, 24, width as int);
                    lemma_cell_bound(y as int, 8, height as int);
                }
                let sx: u32 = c.0 * width;
                let sy: u32 = c.1 * height;
                let dx: u32 = x * width;
                let dy: u32 = y * height;
                let ghost pre = out;
                out.copy_rect(raw, sx, sy, dx, dy, width, height);
                proof {
                    assert forall|x2: int, y2: int, a: int, b: int|
                        0 <= x2 < x && 0 <= y2 < 8 && 0 <= a < width && 0 <= b
                            < height implies #[trigger] out.pix(x2 * width + a, y2 * height + b)
                        == raw.pix(
                        complete_coords(x2, y2).0 * width + a,
                        complete_coords(x2, y2).1 * height + b,
                    ) by {
                        lemma_cell_bound(x2, 24, width as int);
                        lemma_cell_bound(y2, 8, height as int);
                        lemma_cell_bound(x2, x as int, width as int);
                        assert(x2 * width + a < dx);
                        assert(out.pix(x2 * width + a, y2 * height + b) == pre.pix(
                            x2 * width + a,
                            y2 * height + b,
                        ));
                    }
                    assert forall|y2: int, a: int, b: int|
                        0 <= y2 < y + 1 && 0 <= a < width && 0 <= b < height implies #[trigger] out
                        .pix(x * width + a, y2 * height + b) == raw.pix(
                        complete_coords(x as int, y2).0 * width + a,
                        complete_coords(x as int, y2).1 * height + b,
                    ) by {
                        lemma_cell_bound(y2, 8, height as int);
                        if y2 == y {
                            assert(out.pix(dx + a, dy + b) == raw.pix(sx + a, sy + b));
                            assert(x * width + a == dx + a);
                            assert(y2 * height + b == dy + b);
                        } else {
                            lemma_cell_bound(y2, y as int, height as int);
                            assert(y2 * height + b < dy);
                            assert(out.pix(x * width + a, y2 * height + b) == pre.pix(
                                x * width + a,
                                y2 * height + b,
                            ));
                        }
                    }
                }
                y = y + 1;
            }
            x = x + 1;
        }
        out
    }
}

/// Querying any of the 16 masks of a canonical strip decoded from a
/// RPG-Maker source yields an image of exactly twice the source cell size.
pub proof fn lemma_standard_query_size(
    src: RgbaImage,
    atlas: GridCornerAtlas,
    out: RgbaImage,
    mask: int,
)
    requires
        is_standard_atlas_of(src, atlas),
        atlas.is_slot_of(mask, out),
        0 <= mask < 16,
    ensures
        out.spec_width() == 2 * (src.spec_width() as int / 4),
        out.spec_height() == 2 * (src.spec_height() as int / 6),
{
}

/// Round trip: slicing a mask's slot out of the canonical strip decoded
/// from an RPG-Maker source equals composing that mask's cell directly from
/// the source through the cell-view table, pixel for pixel.
pub proof fn lemma_round_trip(
    src: RgbaImage,
    atlas: GridCornerAtlas,
    sliced: RgbaImage,
    direct: RgbaImage,
    mask: int,
)
    requires
        is_standard_atlas_of(src, atlas),
        atlas.is_slot_of(mask, sliced),
        is_rpg_cell_of(src, mask, direct),
        0 <= mask < 16,
    ensures
        sliced.spec_width() == direct.spec_width(),
        sliced.spec_height() == direct.spec_height(),
        forall|x: int, y: int|
            0 <= x < direct.spec_width() && 0 <= y < direct.spec_height()
                ==> #[trigger] sliced.pix(x, y) == direct.pix(x, y),
{
    let cw = src.spec_width() as int / 4;
    let ch = src.spec_height() as int / 6;
    assert forall|x: int, y: int|
        0 <= x < direct.spec_width() && 0 <= y < direct.spec_height() implies #[trigger] sliced.pix(
        x,
        y,
    ) == direct.pix(x, y) by {
        assert(sliced.pix(x, y) == atlas.image.pix(mask * atlas.cell_w + x, y));
        if x < cw && y < ch {
            assert(atlas.image.pix(mask * (2 * cw) + x, y) == src.pix(
                rpg_coords(mask, 0).0 * cw + x,
                rpg_coords(mask, 0).1 * ch + y,
            ));
            assert(direct.pix(x, y) == src.pix(
                rpg_coords(mask, 0).0 * cw + x,
                rpg_coords(mask, 0).1 * ch + y,
            ));
            assert(mask * (atlas.cell_w as int) + x == mask * (2 * cw) + x);
        } else if y < ch {
            assert(atlas.image.pix(mask * (2 * cw) + cw + (x - cw), y) == src.pix(
                rpg_coords(mask, 1).0 * cw + (x - cw),
                rpg_coords(mask, 1).1 * ch + y,
            ));
            assert(direct.pix(cw + (x - cw), y) == src.pix(
                rpg_coords(mask, 1).0 * cw + (x - cw),
                rpg_coords(mask, 1).1 * ch + y,
            ));
            assert(mask * (atlas.cell_w as int) + x == mask * (2 * cw) + cw + (x - cw));
        } else if x < cw {
            assert(atlas.image.pix(mask * (2 * cw) + x, ch + (y - ch)) == src.pix(
                rpg_coords(mask, 2).0 * cw + x,
                rpg_coords(mask, 2).1 * ch + (y - ch),
            ));
            assert(direct.pix(x, ch + (y - ch)) == src.pix(
                rpg_coords(mask, 2).0 * cw + x,
                rpg_coords(mask, 2).1 * ch + (y - ch),
            ));
            assert(mask * (atlas.cell_w as int) + x == mask * (2 * cw) + x);
        } else {
            assert(atlas.image.pix(mask * (2 * cw) + cw + (x - cw), ch + (y - ch)) == src.pix(
                rpg_coords(mask, 3).0 * cw + (x - cw),
                rpg_coords(mask, 3).1 * ch + (y - ch),
            ));
            assert(direct.pix(cw + (x - cw), ch + (y - ch)) == src.pix(
                rpg_coords(mask, 3).0 * cw + (x - cw),
                rpg_coords(mask, 3).1 * ch + (y - ch),
            ));
            assert(mask * (atlas.cell_w as int) + x == mask * (2 * cw) + cw + (x - cw));
        }
    }
}

} // verus!
