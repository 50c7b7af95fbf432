use vstd::prelude::*;
use crate::geometry::{corner_mask, grid_corner_mask};
use crate::rgba::RgbaImage;
use crate::rpg_maker::{is_rpg_cell_of, view_rpg4x6_cell};

verus! {

/// An RPG-Maker tile set with its 16 composite cells precomputed: the cell
/// for corner mask `m` is built once and answered by reference afterwards.
#[derive(Clone, Debug)]
pub struct TilesetEdge2 {
    /// Raw image buffer.
    image: RgbaImage,
    /// Cache for corner patterns, one composite cell per mask.
    cache: Vec<RgbaImage>,
    /// Random selection for full tiles.
    fulls: Vec<RgbaImage>,
}

impl TilesetEdge2 {
    /// The source sheet.
    pub closed spec fn spec_image(self) -> RgbaImage {
        self.image
    }

    /// Well-formed: the source divides into the RPG-Maker 4x6 cell grid and
    /// the cache holds the 16 composite cells, one per corner mask.
    pub closed spec fn wf(self) -> bool {
        &&& self.image.wf()
        &&& self.image.spec_width() % 4 == 0
        &&& self.image.spec_height() % 6 == 0
        &&& self.cache@.len() == 16
        &&& forall|m: int| 0 <= m < 16 ==> is_rpg_cell_of(self.image, m, #[trigger] self.cache@[m])
    }

    /// Precomputes the 16 composite cells of `image`, one per corner mask.
    fn make_cache(image: &RgbaImage) -> (cache: Vec<RgbaImage>)
        requires
            image.wf(),
            image.spec_width() % 4 == 0,
            image.spec_height() % 6 == 0,
        ensures
            cache@.len() == 16,
            forall|m: int| 0 <= m < 16 ==> is_rpg_cell_of(*image, m, #[trigger] cache@[m]),
    {
        let mut cache: Vec<RgbaImage> = Vec::new();
        let mut m: u8 = 0;
        while m < 16
            invariant
                m <= 16,
                image.wf(),
                image.spec_width() % 4 == 0,
                image.spec_height() % 6 == 0,
                cache@.len() == m,
                forall|m2: int|
                    0 <= m2 < m ==> is_rpg_cell_of(*image, m2, #[trigger] cache@[m2]),
            decreases 16 - m,
        {
            let cell = match view_rpg4x6_cell(image, m) {
                Ok(c) => c,
                Err(_) => {
                    proof {
                        assert(false);
                    }
                    vstd::pervasive::unreached()
                },
            };
            cache.push(cell);
            m = m + 1;
        }
        cache
    }

    /// Builds the tile set and precomputes its composite cells. The image
    /// must divide into the RPG-Maker 4x6 cell grid; a caller with an
    /// unchecked image validates the dimensions first.
    pub fn from_rpg_maker(image: RgbaImage) -> (r: TilesetEdge2)
        requires
            image.wf(),
            image.spec_width() % 4 == 0,
            image.spec_height() % 6 == 0,
        ensures
            r.wf(),
            r.spec_image() == image,
    {
        let cache = TilesetEdge2::make_cache(&image);
        TilesetEdge2 { image, cache, fulls: Vec::new() }
    }

    /// The composite cell for the four diagonal-neighbor flags.
    pub fn get_corner(&self, lu: bool, ru: bool, ld: bool, rd: bool) -> (r: &RgbaImage)
        requires
            self.wf(),
        ensures
            is_rpg_cell_of(self.spec_image(), corner_mask(lu, ru, ld, rd), *r),
    {
        let index = grid_corner_mask(lu, ru, ld, rd);
        &self.cache[index as usize]
    }

    /// The composite cell for the four edge-neighbor flags: a diagonal
    /// neighbor counts as same terrain only when both of its edges do,
    /// and the derived flags are used in the fixed `lu, ru, ld, rd` order.
    pub fn get_side(&self, r: bool, u: bool, l: bool, d: bool) -> (out: &RgbaImage)
        requires
            self.wf(),
        ensures
            is_rpg_cell_of(self.spec_image(), corner_mask(l && u, r && u, l && d, r && d), *out),
    {
        let lu = l && u;
        let ru = r && u;
        let ld = l && d;
        let rd = r && d;
        self.get_corner(lu, ru, ld, rd)
    }
}

/// A flat 6x8-cell tile sheet held as one image.
#[derive(Clone, Debug)]
pub struct TileAtlas6x8 {
    /// The sheet's pixels: six cells across, eight down.
    pub image: RgbaImage,
}

} // verus!
