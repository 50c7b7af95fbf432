use tilemap_atlas::corner_set::GridCornerAtlas;
use tilemap_atlas::errors::AtlasError;
use tilemap_atlas::registry::{FileSystemTiles, GridSimpleAtlas, TileAtlasData};
use tilemap_atlas::rgba::{Rgba, RgbaImage};

fn sample(w: u32, h: u32) -> RgbaImage {
    let mut img = RgbaImage::new(w, h);
    for y in 0..h {
        for x in 0..w {
            img.put_pixel(
                x,
                y,
                Rgba::new((x % 251) as u8, (y % 251) as u8, ((x + y) % 251) as u8, 255),
            );
        }
    }
    img
}

fn grass_atlas() -> GridCornerAtlas {
    let wang = sample(8, 8);
    let mut atlas = GridCornerAtlas::from_wang(&wang).unwrap();
    atlas.key = String::from("grass");
    atlas
}

#[test]
fn insert_then_get_returns_the_named_atlas() {
    let mut tiles = FileSystemTiles::new("workspace");
    tiles
        .insert_atlas("grass", TileAtlasData::GridCornerWang(grass_atlas()))
        .unwrap();
    let stored = tiles.get_atlas("grass", 0).unwrap();
    assert_eq!(stored.get_name(), "grass");
    assert!(tiles.get_atlas("missing", 0).is_none());
    assert!(tiles.get_side_atlas("missing", 0).is_none());
}

#[test]
fn insert_is_an_upsert() {
    let mut tiles = FileSystemTiles::new("workspace");
    tiles
        .insert_atlas("grass", TileAtlasData::GridCornerWang(grass_atlas()))
        .unwrap();
    // Last write wins: the same name now holds a simple set.
    tiles
        .insert_atlas(
            "grass",
            TileAtlasData::SimpleSet(GridSimpleAtlas { key: String::from("grass") }),
        )
        .unwrap();
    let stored = tiles.get_atlas("grass", 0).unwrap();
    assert!(matches!(stored, TileAtlasData::SimpleSet(_)));
    // The descriptor still lists the name once.
    let text = tiles.descriptor();
    assert_eq!(text.matches("\"grass\"").count(), 1);
}

#[test]
fn target_size_validation_scenario() {
    let mut tiles = FileSystemTiles::new("workspace");
    assert_eq!(tiles.set_target_size(0, 10).unwrap_err(), AtlasError::InvalidInput);
    assert_eq!(tiles.get_target_size(), (32, 32));
    tiles.set_target_size(16, 16).unwrap();
    assert_eq!(tiles.get_target_size(), (16, 16));
    let text = tiles.descriptor();
    assert!(text.contains("\"target_w\": 16"));
    assert!(text.contains("\"target_h\": 16"));
}

#[test]
fn descriptor_renders_the_whole_registry() {
    let mut tiles = FileSystemTiles::new("workspace");
    assert_eq!(
        tiles.descriptor(),
        "{\n    \"target_w\": 32,\n    \"target_h\": 32,\n    \"atlas\": []\n}\n"
    );
    tiles
        .insert_atlas("grass", TileAtlasData::GridCornerWang(grass_atlas()))
        .unwrap();
    tiles
        .insert_atlas(
            "water",
            TileAtlasData::SimpleSet(GridSimpleAtlas { key: String::from("water") }),
        )
        .unwrap();
    let expected = "{\n    \"target_w\": 32,\n    \"target_h\": 32,\n    \"atlas\": [\n        {\n            \"name\": \"grass\",\n            \"kind\": \"GridCornerWang\"\n        },\n        {\n            \"name\": \"water\",\n            \"kind\": \"SimpleSet\"\n        }\n    ]\n}\n";
    assert_eq!(tiles.descriptor(), expected);
}

#[test]
fn corner_query_answers_from_the_stored_strip() {
    let mut tiles = FileSystemTiles::new("workspace");
    let atlas = grass_atlas();
    let expected = atlas.get_by_mask(0b0110);
    tiles
        .insert_atlas("grass", TileAtlasData::GridCornerWang(atlas))
        .unwrap();
    // lu=false, ru=true, ld=true, rd=false -> mask 0b0110.
    let img = tiles.get_corner("grass", false, true, true, false, 0).unwrap();
    assert_eq!(img.width(), expected.width());
    assert_eq!(img.height(), expected.height());
    assert_eq!(img.pixels(), expected.pixels());
    // Absent names and non-corner variants answer with nothing.
    assert!(tiles.get_corner("missing", true, true, true, true, 0).is_none());
    tiles
        .insert_atlas(
            "flat",
            TileAtlasData::SimpleSet(GridSimpleAtlas { key: String::from("flat") }),
        )
        .unwrap();
    assert!(tiles.get_corner("flat", true, true, true, true, 0).is_none());
}

#[test]
fn decimal_rendering() {
    assert_eq!(tilemap_atlas::registry::u32_to_string(0), "0");
    assert_eq!(tilemap_atlas::registry::u32_to_string(9), "9");
    assert_eq!(tilemap_atlas::registry::u32_to_string(32), "32");
    assert_eq!(tilemap_atlas::registry::u32_to_string(4294967295), "4294967295");
}

#[test]
fn default_registry_uses_default_target_size() {
    let tiles = FileSystemTiles::default();
    assert_eq!(tiles.get_target_size(), (32, 32));
    assert!(tiles.get_atlas("anything", 0).is_none());
}
