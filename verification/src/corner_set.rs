use vstd::prelude::*;
use crate::errors::AtlasError;
use crate::rgba::{RgbaImage, lemma_mul_le};

verus! {

/// The Standard decode table: the cell of a 4x4 wang reference grid that
/// holds the ready composite tile for each corner mask. The entries are
/// vendor convention, transcribed coordinate for coordinate.
pub open spec fn wang_coords(mask: int) -> (int, int) {
    if mask == 0 {
        (0, 3)
    } else if mask == 1 {
        (3, 3)
    } else if mask == 2 {
        (0, 2)
    } else if mask == 3 {
        (1, 2)
    } else if mask == 4 {
        (0, 0)
    } else if mask == 5 {
        (3, 2)
    } else if mask == 6 {
        (2, 3)
    } else if mask == 7 {
        (3, 1)
    } else if mask == 8 {
        (1, 3)
    } else if mask == 9 {
        (0, 1)
    } else if mask == 10 {
        (1, 0)
    } else if mask == 11 {
        (2, 2)
    } else if mask == 12 {
        (3, 0)
    } else if mask == 13 {
        (2, 0)
    } else if mask == 14 {
        (1, 1)
    } else {
        (2, 1)
    }
}

/// Copies the `s`-by-`s` wang reference cell that the Standard decode table
/// assigns to corner mask `id` out of `raw`.
pub fn make_wing_cell(raw: &RgbaImage, id: u32, s: u32) -> (out: RgbaImage)
    requires
        raw.wf(),
        id < 16,
        4 * s <= raw.spec_width(),
        4 * s <= raw.spec_height(),
    ensures
        out.wf(),
        out.spec_width() == s,
        out.spec_height() == s,
        forall|i: int, j: int|
            0 <= i < s && 0 <= j < s ==> out.pix(i, j) == raw.pix(
                wang_coords(id as int).0 * s + i,
                wang_coords(id as int).1 * s + j,
            ),
{
    let (cx, cy): (u32, u32) = if id == 0 {
        (0, 3)
    } else if id == 1 {
        (3, 3)
    } else if id == 2 {
        (0, 2)
    } else if id == 3 {
        (1, 2)
    } else if id == 4 {
        (0, 0)
    } else if id == 5 {
        (3, 2)
    } else if id == 6 {
        (2, 3)
    } else if id == 7 {
        (3, 1)
    } else if id == 8 {
        (1, 3)
    } else if id == 9 {
        (0, 1)
    } else if id == 10 {
        (1, 0)
    } else if id == 11 {
        (2, 2)
    } else if id == 12 {
        (3, 0)
    } else if id == 13 {
        (2, 0)
    } else if id == 14 {
        (1, 1)
    } else {
        (2, 1)
    };
    raw.sub_image(cx * s, cy * s, s, s)
}

/// A canonical corner atlas: a horizontal strip of 16 composite cells,
/// one per corner mask, each `cell_w` by `cell_h` pixels.
#[derive(Clone, Debug)]
pub struct GridCornerAtlas {
    /// The unique name this atlas is registered under.
    pub key: String,
    /// The width of one strip slot in pixels.
    pub cell_w: u32,
    /// The height of one strip slot in pixels.
    pub cell_h: u32,
    /// How many alternatives each mask slot holds; one entry per mask.
    pub count: Vec<u8>,
    /// The strip's pixels.
    pub image: RgbaImage,
}

impl GridCornerAtlas {
    /// Well-formed: the strip holds exactly 16 slots of the stated cell size.
    pub open spec fn wf(self) -> bool {
        &&& self.image.wf()
        &&& self.image.spec_width() == 16 * self.cell_w
        &&& self.image.spec_height() == self.cell_h
        &&& self.count@.len() == 16
    }

    /// The atlas's registered name.
    pub fn get_key(&self) -> (r: &str)
        ensures
            r@ == self.key@,
    {
        self.key.as_str()
    }

    /// `out` is the strip slot this atlas stores for `mask`.
    pub open spec fn is_slot_of(self, mask: int, out: RgbaImage) -> bool {
        &&& out.wf()
        &&& out.spec_width() == self.cell_w
        &&& out.spec_height() == self.cell_h
        &&& forall|i: int, j: int|
            0 <= i < self.cell_w && 0 <= j < self.cell_h ==> out.pix(i, j) == self.image.pix(
                mask * self.cell_w + i,
                j,
            )
    }

    /// Slices the composite cell for `mask` out of the canonical strip.
    pub fn get_by_mask(&self, mask: u8) -> (out: RgbaImage)
        requires
            self.wf(),
            mask < 16,
        ensures
            self.is_slot_of(mask as int, out),
    {
        proof {
            lemma_mul_le(mask as int + 1, 16, self.cell_w as int, self.cell_w as int);
            assert((mask + 1) * self.cell_w == mask * self.cell_w + self.cell_w)
                by (nonlinear_arith);
        }
        let out = self.image.sub_image((mask as u32) * self.cell_w, 0, self.cell_w, self.cell_h);
        proof {
            assert forall|i: int, j: int|
                0 <= i < self.cell_w && 0 <= j < self.cell_h implies out.pix(i, j)
                == self.image.pix(mask * self.cell_w + i, j) by {
                assert(out.pix(i, j) == self.image.pix((mask as u32) * self.cell_w + i, 0 + j));
            }
        }
        out
    }

    /// Decodes a compact 4x4 wang source into the canonical 16-slot strip:
    /// slot `mask` receives the wang cell the Standard decode table assigns
    /// to `mask`. A source whose width does not divide by 4 or differs from
    /// its height is rejected before any pixel is copied.
    pub fn from_wang(wang: &RgbaImage) -> (r: Result<GridCornerAtlas, AtlasError>)
        requires
            wang.wf(),
            4 * wang.spec_width() <= u32::MAX,
            wang.spec_width() * wang.spec_width() <= usize::MAX,
        ensures
            match r {
                Ok(atlas) => {
                    &&& wang.spec_width() % 4 == 0
                    &&& wang.spec_width() == wang.spec_height()
                    &&& atlas.wf()
                    &&& atlas.key@ == Seq::<char>::empty()
                    &&& atlas.cell_w == wang.spec_width() / 4
                    &&& atlas.cell_h == wang.spec_width() / 4
                    &&& forall|m: int, i: int, j: int|
                        0 <= m < 16 && 0 <= i < atlas.cell_w && 0 <= j < atlas.cell_h
                            ==> #[trigger] atlas.image.pix(m * atlas.cell_w + i, j) == wang.pix(
                            wang_coords(m).0 * atlas.cell_w + i,
                            wang_coords(m).1 * atlas.cell_w + j,
                        )
                },
                Err(e) => {
                    &&& e == AtlasError::DimensionError
                    &&& (wang.spec_width() % 4 != 0 || wang.spec_width() != wang.spec_height())
                },
            },
    {
        let w = wang.width();
        if w % 4 != 0 || w != wang.height() {
            return Err(AtlasError::DimensionError);
        }
        let s = w / 4;
        proof {
            assert(16 * s <= 4 * wang.spec_width());
            assert(16 * s * s <= wang.spec_width() * wang.spec_width()) by (nonlinear_arith)
                requires
                    s == wang.spec_width() / 4,
                    wang.spec_width() % 4 == 0,
                    wang.spec_width() >= 0,
            ;
        }
        let mut image = RgbaImage::new(16 * s, s);
        let mut m: u32 = 0;
        while m < 16
            invariant
                m <= 16,
                wang.wf(),
                wang.spec_width() % 4 == 0,
                wang.spec_width() == wang.spec_height(),
                s == wang.spec_width() / 4,
                4 * s <= wang.spec_width(),
                image.wf(),
                image.spec_width() == 16 * s,
                image.spec_height() == s,
                forall|m2: int, i: int, j: int|
                    0 <= m2 < m && 0 <= i < s && 0 <= j < s
                        ==> #[trigger] image.pix(m2 * s + i, j) == wang.pix(
                        wang_coords(m2).0 * s + i,
                        wang_coords(m2).1 * s + j,
                    ),
            decreases 16 - m,
        {
            let cell = make_wing_cell(wang, m, s);
            proof {
                lemma_mul_le(m as int + 1, 16, s as int, s as int);
                assert((m + 1) * s == m * s + s) by (nonlinear_arith);
            }
            let dxv: u32 = m * s;
            image.copy_rect(&cell, 0, 0, dxv, 0, s, s);
            proof {
                assert forall|m2: int, i: int, j: int|
                    0 <= m2 < m + 1 && 0 <= i < s && 0 <= j < s implies #[trigger] image.pix(
                    m2 * s + i,
                    j,
                ) == wang.pix(wang_coords(m2).0 * s + i, wang_coords(m2).1 * s + j) by {
                    if m2 == m {
                        assert(image.pix(dxv + i, 0 + j) == cell.pix(0 + i, 0 + j));
                        assert(cell.pix(i, j) == wang.pix(
                            wang_coords(m2).0 * s + i,
                            wang_coords(m2).1 * s + j,
                        ));
                        assert(m2 * s + i == dxv + i);
                    } else {
                        lemma_mul_le(m2 + 1, m as int, s as int, s as int);
                        assert((m2 + 1) * s == m2 * s + s) by (nonlinear_arith);
                        assert(m2 * s + i < dxv);
                        assert(image.pix(m2 * s + i, j) == wang.pix(
                            wang_coords(m2).0 * s + i,
                            wang_coords(m2).1 * s + j,
                        ));
                    }
                }
            }
            m = m + 1;
        }
        let mut count: Vec<u8> = Vec::new();
        while count.len() < 16
            invariant
                count@.len() <= 16,
            decreases 16 - count@.len(),
        {
            count.push(1);
        }
        Ok(GridCornerAtlas { key: String::new(), cell_w: s, cell_h: s, count, image })
    }
}

} // verus!
