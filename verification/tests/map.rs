use tiled_map_loader::error::{ConversionError, LoadError};
use tiled_map_loader::gid::decode;
use tiled_map_loader::loader::{ReadSource, TiledMapLoader, MAP_EXTENSION};
use tiled_map_loader::map::{MapBuilder, RawDocument, RawLayer, TilesetReference};
use tiled_map_loader::resolver::PathResolver;

fn layer(name: &str, gids: &[u32]) -> RawLayer {
    RawLayer { name: name.to_string(), gids: gids.to_vec() }
}

fn tileset(source: &str) -> TilesetReference {
    TilesetReference { source: source.to_string() }
}

fn document(width: u32, height: u32, layers: Vec<RawLayer>, tilesets: Vec<TilesetReference>) -> RawDocument {
    RawDocument { width, height, tile_width: 16, tile_height: 24, layers, tilesets }
}

fn minimal() -> RawDocument {
    document(2, 2, vec![layer("ground", &[1, 0x8000_0002, 0, 3])], vec![tileset("ground.tsx")])
}

#[test]
fn build_decodes_a_minimal_document() {
    let builder = MapBuilder::new(PathResolver::default());
    let asset = builder.build(minimal(), "maps/level.tmx").unwrap();
    assert_eq!(asset.layer_count(), 1);
    let ground = asset.layer(0).unwrap();
    assert_eq!(ground.len(), 4);
    let indices: Vec<u32> = (0..4).map(|i| ground.cell(i).unwrap().tile_index()).collect();
    assert_eq!(indices, vec![1, 2, 0, 3]);
    let flipped: Vec<bool> = (0..4).map(|i| ground.cell(i).unwrap().flip_horizontal()).collect();
    assert_eq!(flipped, vec![false, true, false, false]);
    for i in 0..4 {
        assert!(!ground.cell(i).unwrap().flip_vertical());
        assert!(!ground.cell(i).unwrap().flip_diagonal());
    }
    assert_eq!(ground.cell(4), None);
}

#[test]
fn build_keeps_the_sizes_and_the_logical_path() {
    let builder = MapBuilder::new(PathResolver::default());
    let asset = builder.build(minimal(), "maps/level.tmx").unwrap();
    assert_eq!(asset.source(), "maps/level.tmx");
    assert_eq!(asset.width(), 2);
    assert_eq!(asset.height(), 2);
    assert_eq!(asset.tile_width(), 16);
    assert_eq!(asset.tile_height(), 24);
    assert_eq!(asset.layer(0).unwrap().name(), "ground");
    assert!(asset.layer(1).is_none());
}

#[test]
fn build_binds_tilesets_under_the_root() {
    let builder = MapBuilder::new(PathResolver::default());
    let doc = document(
        1,
        1,
        vec![layer("only", &[1])],
        vec![tileset("ground.tsx"), tileset("../tiles/walls.tsx"), tileset("./deco.tsx")],
    );
    let asset = builder.build(doc, "maps/level.tmx").unwrap();
    assert_eq!(asset.tileset_count(), 3);
    assert_eq!(asset.tileset(0).unwrap().path(), "assets/maps/ground.tsx");
    assert_eq!(asset.tileset(1).unwrap().path(), "assets/maps/../tiles/walls.tsx");
    assert_eq!(asset.tileset(2).unwrap().path(), "assets/maps/./deco.tsx");
    assert!(asset.tileset(3).is_none());
}

#[test]
fn build_binds_tilesets_where_the_resolver_reads_them() {
    let resolver = PathResolver::new("game/data".to_string());
    let builder = MapBuilder::new(resolver.clone());
    let asset = builder.build(minimal(), "world/level.tmx").unwrap();
    let resolved = resolver.resolve_path("world/level.tmx", "ground.tsx");
    assert_eq!(asset.tileset(0).unwrap().path(), resolver.target(&resolved));
    assert_eq!(asset.tileset(0).unwrap().path(), "game/data/world/ground.tsx");
    assert_eq!(builder.resolver().root(), "game/data");
}

#[test]
fn build_of_a_top_level_document() {
    let builder = MapBuilder::new(PathResolver::default());
    let asset = builder.build(minimal(), "level.tmx").unwrap();
    assert_eq!(asset.tileset(0).unwrap().path(), "assets/ground.tsx");
}

#[test]
fn build_stores_decoded_cells_only() {
    let gids = [0xE000_0007u32, 0x4000_0001, 0x2000_0002, 0xFFFF_FFFF, 0, 5];
    let builder = MapBuilder::new(PathResolver::default());
    let asset = builder.build(document(3, 2, vec![layer("l", &gids)], vec![]), "m.tmx").unwrap();
    let made = asset.layer(0).unwrap();
    for (i, gid) in gids.iter().enumerate() {
        let cell = made.cell(i).unwrap();
        assert_eq!(cell, decode(*gid));
        assert!(cell.tile_index() <= 0x1FFF_FFFF);
        assert_eq!(cell.encode(), *gid);
    }
}

#[test]
fn build_of_several_layers_keeps_their_order() {
    let builder = MapBuilder::new(PathResolver::default());
    let doc = document(
        2,
        1,
        vec![layer("below", &[1, 2]), layer("above", &[0x8000_0003, 0])],
        vec![],
    );
    let asset = builder.build(doc, "m.tmx").unwrap();
    assert_eq!(asset.layer_count(), 2);
    assert_eq!(asset.layer(0).unwrap().name(), "below");
    assert_eq!(asset.layer(1).unwrap().name(), "above");
    assert_eq!(asset.layer(1).unwrap().cell(0).unwrap().tile_index(), 3);
    assert!(asset.layer(1).unwrap().cell(0).unwrap().flip_horizontal());
    assert!(asset.layer(1).unwrap().cell(1).unwrap().is_empty());
}

#[test]
fn build_of_an_empty_document() {
    let builder = MapBuilder::new(PathResolver::default());
    let asset = builder.build(document(0, 0, vec![], vec![]), "m.tmx").unwrap();
    assert_eq!(asset.layer_count(), 0);
    assert_eq!(asset.tileset_count(), 0);
    assert_eq!(asset.tile_at(0, 0, 0), None);
}

#[test]
fn build_of_a_map_without_cells() {
    let builder = MapBuilder::new(PathResolver::default());
    let asset = builder.build(document(0, 7, vec![layer("none", &[])], vec![]), "m.tmx").unwrap();
    assert_eq!(asset.layer(0).unwrap().len(), 0);
    assert_eq!(asset.tile_at(0, 0, 0), None);
}

#[test]
fn build_rejects_a_layer_with_too_few_cells() {
    let builder = MapBuilder::new(PathResolver::default());
    let doc = document(2, 2, vec![layer("short", &[1, 2, 3])], vec![tileset("g.tsx")]);
    assert_eq!(
        builder.build(doc, "m.tmx"),
        Err(ConversionError::LayerSizeMismatch { layer: 0, expected: 4, found: 3 })
    );
}

#[test]
fn build_rejects_a_layer_with_too_many_cells() {
    let builder = MapBuilder::new(PathResolver::default());
    let doc = document(2, 2, vec![layer("fine", &[1, 2, 3, 4]), layer("long", &[1, 2, 3, 4, 5])], vec![]);
    assert_eq!(
        builder.build(doc, "m.tmx"),
        Err(ConversionError::LayerSizeMismatch { layer: 1, expected: 4, found: 5 })
    );
}

#[test]
fn build_reports_the_first_layer_at_fault() {
    let builder = MapBuilder::new(PathResolver::default());
    let doc = document(
        1,
        2,
        vec![layer("a", &[1, 2]), layer("b", &[1]), layer("c", &[])],
        vec![],
    );
    assert_eq!(
        builder.build(doc, "m.tmx"),
        Err(ConversionError::LayerSizeMismatch { layer: 1, expected: 2, found: 1 })
    );
}

#[test]
fn build_counts_cells_without_overflow() {
    let builder = MapBuilder::new(PathResolver::default());
    let doc = document(u32::MAX, u32::MAX, vec![layer("l", &[1])], vec![]);
    assert_eq!(
        builder.build(doc, "m.tmx"),
        Err(ConversionError::LayerSizeMismatch {
            layer: 0,
            expected: 18_446_744_065_119_617_025,
            found: 1
        })
    );
    let wide = document(65_536, 65_536, vec![layer("l", &[])], vec![]);
    assert_eq!(
        builder.build(wide, "m.tmx"),
        Err(ConversionError::LayerSizeMismatch { layer: 0, expected: 4_294_967_296, found: 0 })
    );
}

#[test]
fn build_rejects_an_empty_tileset_reference() {
    let builder = MapBuilder::new(PathResolver::default());
    let doc = document(1, 1, vec![layer("l", &[1])], vec![tileset("g.tsx"), tileset("")]);
    assert_eq!(builder.build(doc, "m.tmx"), Err(ConversionError::UnusableTileset { tileset: 1 }));
}

#[test]
fn build_rejects_a_tileset_outside_the_root() {
    let builder = MapBuilder::new(PathResolver::default());
    let doc = document(1, 1, vec![layer("l", &[1])], vec![tileset("/srv/g.tsx")]);
    assert_eq!(builder.build(doc, "m.tmx"), Err(ConversionError::UnusableTileset { tileset: 0 }));
    let from_absolute = document(1, 1, vec![layer("l", &[1])], vec![tileset("g.tsx")]);
    assert_eq!(
        builder.build(from_absolute, "/maps/m.tmx"),
        Err(ConversionError::UnusableTileset { tileset: 0 })
    );
}

#[test]
fn build_looks_at_layers_before_tilesets() {
    let builder = MapBuilder::new(PathResolver::default());
    let doc = document(1, 1, vec![layer("l", &[])], vec![tileset("")]);
    assert_eq!(
        builder.build(doc, "m.tmx"),
        Err(ConversionError::LayerSizeMismatch { layer: 0, expected: 1, found: 0 })
    );
}

#[test]
fn build_twice_gives_equal_maps() {
    let builder = MapBuilder::new(PathResolver::default());
    assert_eq!(builder.build(minimal(), "maps/level.tmx"), builder.build(minimal(), "maps/level.tmx"));
}

#[test]
fn tile_at_goes_row_after_row() {
    let builder = MapBuilder::new(PathResolver::default());
    let doc = document(3, 2, vec![layer("l", &[10, 11, 12, 20, 21, 0x4000_0016])], vec![]);
    let asset = builder.build(doc, "m.tmx").unwrap();
    assert_eq!(asset.tile_at(0, 0, 0).unwrap().tile_index(), 10);
    assert_eq!(asset.tile_at(0, 2, 0).unwrap().tile_index(), 12);
    assert_eq!(asset.tile_at(0, 0, 1).unwrap().tile_index(), 20);
    assert_eq!(asset.tile_at(0, 2, 1).unwrap().tile_index(), 22);
    assert!(asset.tile_at(0, 2, 1).unwrap().flip_vertical());
    assert_eq!(asset.tile_at(0, 1, 1), asset.layer(0).unwrap().cell(4));
}

#[test]
fn tile_at_outside_the_map_is_nothing() {
    let builder = MapBuilder::new(PathResolver::default());
    let asset = builder.build(minimal(), "m.tmx").unwrap();
    assert!(asset.tile_at(0, 1, 1).is_some());
    assert_eq!(asset.tile_at(0, 2, 0), None);
    assert_eq!(asset.tile_at(0, 0, 2), None);
    assert_eq!(asset.tile_at(1, 0, 0), None);
    assert_eq!(asset.tile_at(0, u32::MAX, u32::MAX), None);
}

#[test]
fn extensions_are_the_map_suffix_alone() {
    let loader = TiledMapLoader::default();
    assert_eq!(loader.extensions(), &["tmx"]);
    assert_eq!(loader.extensions().len(), 1);
    assert_eq!(loader.extensions()[0], MAP_EXTENSION);
    assert_eq!(TiledMapLoader::new(PathResolver::new("x".to_string())).extensions(), &["tmx"]);
}

#[test]
fn loader_defaults_to_the_assets_root() {
    assert_eq!(TiledMapLoader::default().resolver().root(), "assets");
    assert_eq!(TiledMapLoader::new(PathResolver::new("data".to_string())).resolver().root(), "data");
}

#[test]
fn load_builds_a_parsed_document() {
    let loader = TiledMapLoader::default();
    let asset = loader.load(Ok(minimal()), "maps/level.tmx").unwrap();
    assert_eq!(asset.source(), "maps/level.tmx");
    assert_eq!(asset.tile_at(0, 1, 0).unwrap().tile_index(), 2);
    assert!(asset.tile_at(0, 1, 0).unwrap().flip_horizontal());
    assert_eq!(asset.tileset(0).unwrap().path(), "assets/maps/ground.tsx");
    let built = MapBuilder::new(PathResolver::default()).build(minimal(), "maps/level.tmx").unwrap();
    assert_eq!(asset, built);
}

#[test]
fn load_hands_a_parse_error_on() {
    let loader = TiledMapLoader::default();
    let error = LoadError::Parse { diagnostic: "line 3, column 7: unexpected end of input".to_string() };
    assert_eq!(loader.load(Err(error.clone()), "maps/level.tmx"), Err(error));
}

#[test]
fn load_hands_an_io_error_on() {
    let loader = TiledMapLoader::default();
    let error = LoadError::Io { path: "assets/maps/missing.tsx".to_string() };
    assert_eq!(loader.load(Err(error.clone()), "maps/level.tmx"), Err(error));
}

#[test]
fn load_wraps_a_conversion_error() {
    let loader = TiledMapLoader::default();
    let doc = document(2, 2, vec![layer("short", &[1])], vec![]);
    assert_eq!(
        loader.load(Ok(doc), "m.tmx"),
        Err(LoadError::Conversion(ConversionError::LayerSizeMismatch {
            layer: 0,
            expected: 4,
            found: 1
        }))
    );
    let unbound = document(1, 1, vec![layer("l", &[1])], vec![tileset("")]);
    assert_eq!(
        loader.load(Ok(unbound), "m.tmx"),
        Err(LoadError::Conversion(ConversionError::UnusableTileset { tileset: 0 }))
    );
}

#[test]
fn load_with_a_missing_tileset_gives_no_map() {
    let loader = TiledMapLoader::default();
    let read = loader.resolver().read_result("maps/missing.tsx", None);
    let failure = read.unwrap_err();
    assert_eq!(failure, LoadError::Io { path: "assets/maps/missing.tsx".to_string() });
    let result = loader.load(Err(failure), "maps/level.tmx");
    assert!(result.is_err());
    assert!(matches!(result, Err(LoadError::Io { .. })));
}

#[test]
fn read_source_serves_the_document_itself_from_memory() {
    let loader = TiledMapLoader::default();
    assert_eq!(loader.read_source("maps/level.tmx", "maps/level.tmx"), ReadSource::Document);
}

#[test]
fn read_source_sends_other_paths_to_the_store() {
    let loader = TiledMapLoader::default();
    assert_eq!(
        loader.read_source("maps/level.tmx", "maps/ground.tsx"),
        ReadSource::Store { target: "assets/maps/ground.tsx".to_string() }
    );
    assert_eq!(
        loader.read_source("maps/level.tmx", "maps/level.tmx2"),
        ReadSource::Store { target: "assets/maps/level.tmx2".to_string() }
    );
    assert_eq!(
        loader.read_source("maps/level.tmx", ""),
        ReadSource::Store { target: "assets/".to_string() }
    );
}

fn shareable<T: Send + Sync + 'static>(_: &T) {}

#[test]
fn loader_and_its_parts_can_be_shared() {
    let loader = TiledMapLoader::default();
    shareable(&loader);
    shareable(loader.resolver());
    let asset = loader.load(Ok(minimal()), "m.tmx").unwrap();
    shareable(&asset);
}

#[test]
fn load_does_not_change_the_loader() {
    let loader = TiledMapLoader::new(PathResolver::new("data".to_string()));
    let before = loader.clone();
    let _ = loader.load(Ok(minimal()), "m.tmx");
    let _ = loader.load(Err(LoadError::Parse { diagnostic: String::new() }), "m.tmx");
    let _ = loader.read_source("m.tmx", "g.tsx");
    assert_eq!(loader, before);
    assert_eq!(loader.resolver().root(), "data");
}
