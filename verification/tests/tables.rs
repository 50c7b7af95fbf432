use tilemap_atlas::rgba::{Rgba, RgbaImage};
use tilemap_atlas::rpg_maker::{rpg4x6_to_complete, view_rpg4x6_cell};
use tilemap_atlas::flat::TilesetEdge2;

fn sample(w: u32, h: u32) -> RgbaImage {
    let mut img = RgbaImage::new(w, h);
    for y in 0..h {
        for x in 0..w {
            img.put_pixel(
                x,
                y,
                Rgba::new((x % 251) as u8, (y % 251) as u8, ((x + y) % 251) as u8, 255),
            );
        }
    }
    img
}

#[test]
fn complete_remap_spot_values() {
    assert_eq!(rpg4x6_to_complete(0, 0), (0, 2));
    assert_eq!(rpg4x6_to_complete(0, 5), (0, 5));
    assert_eq!(rpg4x6_to_complete(3, 2), (3, 0));
    assert_eq!(rpg4x6_to_complete(9, 3), (1, 3));
    assert_eq!(rpg4x6_to_complete(15, 0), (1, 4));
    assert_eq!(rpg4x6_to_complete(20, 2), (0, 0));
    assert_eq!(rpg4x6_to_complete(21, 3), (1, 1));
    assert_eq!(rpg4x6_to_complete(23, 7), (3, 5));
}

#[test]
fn complete_remap_stays_in_reference_grid() {
    for x in 0..24 {
        for y in 0..8 {
            let (cx, cy) = rpg4x6_to_complete(x, y);
            assert!(cx < 4 && cy < 6, "({}, {}) -> ({}, {})", x, y, cx, cy);
        }
    }
}

#[test]
fn cached_tileset_matches_direct_extraction() {
    let raw = sample(8, 12);
    let tiles = TilesetEdge2::from_rpg_maker(sample(8, 12));
    for lu in [false, true] {
        for ru in [false, true] {
            for ld in [false, true] {
                for rd in [false, true] {
                    let mask = tilemap_atlas::geometry::grid_corner_mask(lu, ru, ld, rd);
                    let cached = tiles.get_corner(lu, ru, ld, rd);
                    let direct = view_rpg4x6_cell(&raw, mask).unwrap();
                    assert_eq!(cached.width(), direct.width());
                    assert_eq!(cached.height(), direct.height());
                    assert_eq!(cached.pixels(), direct.pixels());
                }
            }
        }
    }
}

#[test]
fn side_query_delegates_with_consistent_order() {
    let tiles = TilesetEdge2::from_rpg_maker(sample(8, 12));
    for r in [false, true] {
        for u in [false, true] {
            for l in [false, true] {
                for d in [false, true] {
                    let by_side = tiles.get_side(r, u, l, d);
                    let by_corner = tiles.get_corner(l && u, r && u, l && d, r && d);
                    assert_eq!(by_side.pixels(), by_corner.pixels());
                }
            }
        }
    }
}
