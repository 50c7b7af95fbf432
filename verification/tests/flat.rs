use tilemap_atlas::geometry::grid_corner_mask;

#[test]
fn test() {
    for r in [false, true] {
        for u in [false, true] {
            for l in [false, true] {
                for d in [false, true] {
                    let idx1 = (r as u8) << 3 | (u as u8) << 2 | (l as u8) << 1 | (d as u8);
                    let lu = l && u;
                    let ru = r && u;
                    let ld = l && d;
                    let rd = r && d;
                    let idx2 = (lu as u8) << 3 | (ru as u8) << 2 | (ld as u8) << 1 | (rd as u8);
                    println!("{} -> {}", idx1, idx2)
                }
            }
        }
    }
}

#[test]
fn side_mask_uses_consistent_corner_order() {
    // The four derived corner flags enter the encoding in the fixed
    // lu, ru, ld, rd order: sides right+up alone set only the right-up bit.
    let m = tilemap_atlas::geometry::mask_from_sides(true, true, false, false);
    assert_eq!(m, grid_corner_mask(false, true, false, false));
    assert_eq!(m, 0b0010);
}
