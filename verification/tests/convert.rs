use tilemap_atlas::corner_set::GridCornerAtlas;
use tilemap_atlas::errors::AtlasError;
use tilemap_atlas::rgba::{Rgba, RgbaImage};
use tilemap_atlas::rpg_maker::{extract_cell, view_rpg4x6_cell, GridCornerRMVXFile};

fn sample(w: u32, h: u32) -> RgbaImage {
    let mut img = RgbaImage::new(w, h);
    for y in 0..h {
        for x in 0..w {
            img.put_pixel(
                x,
                y,
                Rgba::new((x % 251) as u8, (y % 251) as u8, ((x + y) % 251) as u8, 255),
            );
        }
    }
    img
}

fn images_equal(a: &RgbaImage, b: &RgbaImage) -> bool {
    a.width() == b.width() && a.height() == b.height() && a.pixels() == b.pixels()
}

#[test]
fn extract_cell_blank_mask_scenario() {
    // A 4-cell-wide, 6-cell-tall RPG-Maker source with 16x16 cells: the
    // composite for mask 0 copies source cells (0,0),(1,0),(0,1),(1,1)
    // into the four quadrants, so it equals the source's top-left 32x32.
    let raw = sample(64, 96);
    let out = view_rpg4x6_cell(&raw, 0).unwrap();
    assert_eq!(out.width(), 32);
    assert_eq!(out.height(), 32);
    for y in 0..32 {
        for x in 0..32 {
            assert_eq!(out.get_pixel(x, y), raw.get_pixel(x, y));
        }
    }
}

#[test]
fn extract_cell_full_mask_uses_center_cells() {
    // Mask 0b1111 reads quadrants from cells (1,3),(2,3),(1,4),(2,4).
    let raw = sample(64, 96);
    let out = view_rpg4x6_cell(&raw, 0b1111).unwrap();
    assert_eq!(out.width(), 32);
    assert_eq!(out.height(), 32);
    for y in 0..16 {
        for x in 0..16 {
            assert_eq!(out.get_pixel(x, y), raw.get_pixel(16 + x, 48 + y));
            assert_eq!(out.get_pixel(16 + x, y), raw.get_pixel(32 + x, 48 + y));
            assert_eq!(out.get_pixel(x, 16 + y), raw.get_pixel(16 + x, 64 + y));
            assert_eq!(out.get_pixel(16 + x, 16 + y), raw.get_pixel(32 + x, 64 + y));
        }
    }
}

#[test]
fn standard_strip_round_trips_every_mask() {
    // Converting an RPG-Maker source to the Standard strip and slicing each
    // mask matches extracting the same mask directly from the source.
    let raw = sample(8, 12);
    let rmvx = GridCornerRMVXFile::new("terrain.png", 4, 4);
    let atlas = rmvx.as_standard("terrain", &raw).unwrap();
    assert_eq!(atlas.get_key(), "terrain");
    for m in 0..16u8 {
        let sliced = atlas.get_by_mask(m);
        let direct = view_rpg4x6_cell(&raw, m).unwrap();
        assert!(images_equal(&sliced, &direct), "mask {} differs", m);
    }
}

#[test]
fn standard_strip_query_sizes() {
    // Every mask of a converted source yields a cell of exactly twice the
    // source cell size.
    let raw = sample(64, 96);
    let rmvx = GridCornerRMVXFile::new("terrain.png", 32, 32);
    let atlas = rmvx.as_standard("terrain", &raw).unwrap();
    for m in 0..16u8 {
        let cell = atlas.get_by_mask(m);
        assert_eq!(cell.width(), 32);
        assert_eq!(cell.height(), 32);
    }
}

#[test]
fn dimension_validation_rejects_ragged_sources() {
    // Width not divisible by the RPG-Maker column count.
    let raw = sample(10, 12);
    assert_eq!(view_rpg4x6_cell(&raw, 0).unwrap_err(), AtlasError::DimensionError);
    // Height not divisible by the RPG-Maker row count.
    let raw = sample(8, 10);
    assert_eq!(view_rpg4x6_cell(&raw, 0).unwrap_err(), AtlasError::DimensionError);
    // Width not divisible by the Standard column count.
    let wang = sample(10, 10);
    assert_eq!(GridCornerAtlas::from_wang(&wang).unwrap_err(), AtlasError::DimensionError);
    // A wang source must be square.
    let wang = sample(8, 4);
    assert_eq!(GridCornerAtlas::from_wang(&wang).unwrap_err(), AtlasError::DimensionError);
    // A cell-size mismatch between reference and source is rejected too.
    let raw = sample(8, 12);
    let rmvx = GridCornerRMVXFile::new("terrain.png", 16, 16);
    assert_eq!(rmvx.as_standard("terrain", &raw).unwrap_err(), AtlasError::DimensionError);
}

#[test]
fn wang_decode_places_cells_by_table() {
    // The Standard decode table, slot by slot: mask -> wang cell.
    let table: [(u32, u32); 16] = [
        (0, 3),
        (3, 3),
        (0, 2),
        (1, 2),
        (0, 0),
        (3, 2),
        (2, 3),
        (3, 1),
        (1, 3),
        (0, 1),
        (1, 0),
        (2, 2),
        (3, 0),
        (2, 0),
        (1, 1),
        (2, 1),
    ];
    let wang = sample(8, 8);
    let atlas = GridCornerAtlas::from_wang(&wang).unwrap();
    assert_eq!(atlas.cell_w, 2);
    assert_eq!(atlas.cell_h, 2);
    assert_eq!(atlas.get_key(), "");
    for m in 0..16u8 {
        let cell = atlas.get_by_mask(m);
        let (cx, cy) = table[m as usize];
        for y in 0..2 {
            for x in 0..2 {
                assert_eq!(cell.get_pixel(x, y), wang.get_pixel(cx * 2 + x, cy * 2 + y));
            }
        }
    }
}

#[test]
fn complete_sheet_replicates_reference_cells() {
    let raw = sample(8, 12);
    let sheet = GridCornerRMVXFile::make_complete(&raw, 2, 2);
    assert_eq!(sheet.width(), 48);
    assert_eq!(sheet.height(), 16);
    // Spot checks against the remap table: sheet cell -> reference cell.
    let checks: [(u32, u32, u32, u32); 4] = [
        (0, 0, 0, 2),
        (23, 7, 3, 5),
        (20, 2, 0, 0),
        (9, 3, 1, 3),
    ];
    for (sx, sy, rx, ry) in checks {
        for y in 0..2 {
            for x in 0..2 {
                assert_eq!(
                    sheet.get_pixel(sx * 2 + x, sy * 2 + y),
                    raw.get_pixel(rx * 2 + x, ry * 2 + y),
                    "sheet cell ({},{})",
                    sx,
                    sy
                );
            }
        }
    }
}

#[test]
fn extract_cell_copies_each_named_quadrant() {
    let raw = sample(64, 96);
    let coords = ((0, 0), (3, 0), (0, 5), (3, 5));
    let out = extract_cell(&raw, coords, 16, 16).unwrap();
    assert_eq!(out.width(), 32);
    assert_eq!(out.height(), 32);
    for y in 0..16 {
        for x in 0..16 {
            assert_eq!(out.get_pixel(x, y), raw.get_pixel(x, y));
            assert_eq!(out.get_pixel(16 + x, y), raw.get_pixel(48 + x, y));
            assert_eq!(out.get_pixel(x, 16 + y), raw.get_pixel(x, 80 + y));
            assert_eq!(out.get_pixel(16 + x, 16 + y), raw.get_pixel(48 + x, 80 + y));
        }
    }
}

#[test]
fn extract_cell_rejects_rectangles_outside_the_source() {
    // Cell column 4 of a 4-column source starts past the right edge.
    let raw = sample(64, 96);
    let coords = ((0, 0), (4, 0), (0, 1), (1, 1));
    assert_eq!(extract_cell(&raw, coords, 16, 16).unwrap_err(), AtlasError::OutOfBounds);
}

#[test]
fn error_descriptions() {
    assert_eq!(
        AtlasError::DimensionError.as_str(),
        "image dimensions do not divide evenly by the layout grid"
    );
    assert_eq!(AtlasError::OutOfBounds.as_str(), "a source rectangle exceeds the image bounds");
    assert_eq!(
        AtlasError::InvalidInput.as_str(),
        "invalid configuration value or descriptor write failure"
    );
}
