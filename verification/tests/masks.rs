use tilemap_atlas::errors::AtlasError;
use tilemap_atlas::geometry::{cell_geometry, grid_corner_mask, mask_from_sides, quadrant_origin};

#[test]
fn corner_mask_bit_assignment() {
    assert_eq!(grid_corner_mask(false, false, false, false), 0b0000);
    assert_eq!(grid_corner_mask(true, false, false, false), 0b0001);
    assert_eq!(grid_corner_mask(false, true, false, false), 0b0010);
    assert_eq!(grid_corner_mask(false, false, true, false), 0b0100);
    assert_eq!(grid_corner_mask(false, false, false, true), 0b1000);
    assert_eq!(grid_corner_mask(true, true, true, true), 0b1111);
}

#[test]
fn corner_mask_is_a_bijection() {
    // All 16 flag quadruples give 16 distinct masks in 0..16, and the
    // fixed bit positions decode each mask back to its quadruple.
    let mut seen = [false; 16];
    for lu in [false, true] {
        for ru in [false, true] {
            for ld in [false, true] {
                for rd in [false, true] {
                    let m = grid_corner_mask(lu, ru, ld, rd);
                    assert!(m < 16);
                    assert!(!seen[m as usize]);
                    seen[m as usize] = true;
                    assert_eq!(m & 1 != 0, lu);
                    assert_eq!(m & 2 != 0, ru);
                    assert_eq!(m & 4 != 0, ld);
                    assert_eq!(m & 8 != 0, rd);
                }
            }
        }
    }
    assert!(seen.iter().all(|s| *s));
}

#[test]
fn quadrant_origin_and_cell_geometry_values() {
    assert_eq!(quadrant_origin(0, 8, 6), (0, 0));
    assert_eq!(quadrant_origin(1, 8, 6), (8, 0));
    assert_eq!(quadrant_origin(2, 8, 6), (0, 6));
    assert_eq!(quadrant_origin(3, 8, 6), (8, 6));
    assert_eq!(cell_geometry(64, 96, 4, 6).unwrap(), (16, 16));
    assert_eq!(cell_geometry(65, 96, 4, 6).unwrap_err(), AtlasError::DimensionError);
    assert_eq!(cell_geometry(64, 94, 4, 6).unwrap_err(), AtlasError::DimensionError);
}

#[test]
fn side_mask_applies_the_and_rule() {
    // A diagonal is set only when both of its edges are.
    assert_eq!(mask_from_sides(false, false, false, false), 0b0000);
    assert_eq!(mask_from_sides(true, true, true, true), 0b1111);
    // left+up alone: only the left-up corner.
    assert_eq!(mask_from_sides(false, true, true, false), 0b0001);
    // left+down alone: only the left-down corner.
    assert_eq!(mask_from_sides(false, false, true, true), 0b0100);
    // right+down alone: only the right-down corner.
    assert_eq!(mask_from_sides(true, false, false, true), 0b1000);
    // up alone infers no diagonal at all.
    assert_eq!(mask_from_sides(false, true, false, false), 0b0000);
}
