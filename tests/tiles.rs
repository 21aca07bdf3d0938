use mbtileserver::errors::Error;
use mbtileserver::registry::{Registry, Tilesets};
use mbtileserver::tiles::{
    child_prefix, format_query, get_data_format_via_query, get_grid_info, get_tile_details,
    is_tileset_file, tileset_key, TileMeta, TileProbe, GRID_SAMPLE_QUERY, TILE_SAMPLE_QUERY,
};
use mbtileserver::utils::DataFormat;

const PNG: [u8; 8] = [0x89, 0x50, 0x4e, 0x47, 0x0d, 0x0a, 0x1a, 0x0a];

fn rows(pairs: &[(&str, &str)]) -> Vec<(String, String)> {
    pairs.iter().map(|(k, v)| (k.to_string(), v.to_string())).collect()
}

fn probe(first_tile: &[u8], metadata: &[(&str, &str)]) -> TileProbe {
    TileProbe {
        core_tables: Ok(2),
        first_tile: Some(first_tile.to_vec()),
        grid_tables: 0,
        first_grid: None,
        metadata: rows(metadata),
    }
}

fn meta(id: &str, first_tile: &[u8]) -> TileMeta {
    get_tile_details("/data/x.mbtiles", id, &probe(first_tile, &[])).unwrap()
}

#[test]
fn get_tileset_metadata() {
    let details = get_tile_details(
        "./tiles/geography-class-png.mbtiles",
        "geography-class-png",
        &probe(
            &PNG,
            &[
                ("name", "Geography Class"),
                ("version", "1.0.0"),
                ("minzoom", "0"),
                ("maxzoom", "1"),
                ("bounds", "-180,-85.0511,180,85.0511"),
                ("center", "0,20,0"),
            ],
        ),
    )
    .unwrap();
    assert_eq!(details.tilejson.name.unwrap(), "Geography Class");
    assert_eq!(details.tilejson.version.unwrap(), "1.0.0");
    assert_eq!(details.tilejson.minzoom.unwrap(), 0);
    assert_eq!(details.tilejson.maxzoom.unwrap(), 1);
    assert_eq!(details.tilejson.bounds.unwrap(), "-180,-85.0511,180,85.0511");
    assert_eq!(details.tilejson.center.unwrap(), "0,20,0");
    assert_eq!(details.tile_format, DataFormat::PNG);
    assert_eq!(details.id, "geography-class-png");
    assert_eq!(details.path, "./tiles/geography-class-png.mbtiles");

    let details = get_tile_details(
        "./tiles/world_cities.mbtiles",
        "world_cities",
        &probe(
            &[0x1f, 0x8b, 0x08, 0x00],
            &[
                ("name", "Major cities from Natural Earth data"),
                ("version", "2"),
                ("minzoom", "0"),
                ("maxzoom", "6"),
                ("bounds", "-123.123590,-37.818085,174.763027,59.352706"),
                ("center", "-75.937500,38.788894,6"),
                ("json", "{\"vector_layers\":[]}"),
                ("type", "overlay"),
            ],
        ),
    )
    .unwrap();
    assert_eq!(details.tilejson.name.unwrap(), "Major cities from Natural Earth data");
    assert_eq!(details.tilejson.version.unwrap(), "2");
    assert_eq!(details.tilejson.minzoom, Some(0));
    assert_eq!(details.tilejson.maxzoom.unwrap(), 6);
    assert_eq!(
        details.tilejson.bounds.unwrap(),
        "-123.123590,-37.818085,174.763027,59.352706"
    );
    assert_eq!(
        details.tilejson.center.as_deref(),
        Some("-75.937500,38.788894,6")
    );
    assert_eq!(details.tile_format, DataFormat::PBF);
    assert_eq!(details.json.unwrap(), "{\"vector_layers\":[]}");
    assert_eq!(details.layer_type.unwrap(), "overlay");
}

#[test]
fn jpeg_tiles_classify_as_jpg() {
    assert_eq!(meta("photos", &[0xff, 0xd8, 0xff, 0xe0]).tile_format, DataFormat::JPG);
}

#[test]
fn open_errors() {
    let mut p = probe(&PNG, &[]);
    p.core_tables = Ok(1);
    assert_eq!(
        get_tile_details("a", "invalid", &p).err(),
        Some(Error::MissingTable("invalid".to_string()))
    );
    p.core_tables = Err("disk I/O error".to_string());
    assert_eq!(
        get_tile_details("a", "invalid", &p).err(),
        Some(Error::DBConnection("disk I/O error".to_string()))
    );
    let p = probe(b"not an image", &[]);
    assert_eq!(
        get_tile_details("a", "invalid-tile-format", &p).err(),
        Some(Error::UnknownTileFormat("invalid-tile-format".to_string()))
    );
    let mut p = probe(&PNG, &[]);
    p.first_tile = None;
    assert_eq!(
        get_tile_details("a", "empty", &p).err(),
        Some(Error::UnknownTileFormat("empty".to_string()))
    );
}

#[test]
fn grid_format_needs_all_five_tables() {
    let zlib = Some(vec![0x78, 0x9c, 0x01]);
    assert_eq!(get_grid_info(4, &zlib), None);
    assert_eq!(get_grid_info(5, &zlib), Some(DataFormat::ZLIB));
    assert_eq!(get_grid_info(5, &None), Some(DataFormat::UNKNOWN));
    let mut p = probe(&PNG, &[]);
    p.grid_tables = 4;
    p.first_grid = zlib;
    assert_eq!(get_tile_details("a", "g", &p).unwrap().grid_format, None);
}

#[test]
fn empty_and_unknown_metadata_rows_are_ignored() {
    let m = get_tile_details(
        "a",
        "t",
        &probe(
            &PNG,
            &[
                ("name", "First"),
                ("name", ""),
                ("description", ""),
                ("minzoom", "many"),
                ("maxzoom", "300"),
                ("colour", "red"),
                ("attribution", "Someone"),
            ],
        ),
    )
    .unwrap();
    assert_eq!(m.tilejson.name.as_deref(), Some("First"));
    assert_eq!(m.tilejson.description, None);
    assert_eq!(m.tilejson.minzoom, None);
    assert_eq!(m.tilejson.maxzoom, None);
    assert_eq!(m.tilejson.attribution.as_deref(), Some("Someone"));
}

#[test]
fn format_queries() {
    assert_eq!(format_query("t", "tile"), Ok(TILE_SAMPLE_QUERY));
    assert_eq!(format_query("t", "grid"), Ok(GRID_SAMPLE_QUERY));
    assert_eq!(
        format_query("t", "other"),
        Err(Error::InvalidDataFormatQueryCategory("t".to_string()))
    );
    assert_eq!(get_data_format_via_query(&Some(PNG.to_vec())), DataFormat::PNG);
    assert_eq!(get_data_format_via_query(&None), DataFormat::UNKNOWN);
}

#[test]
fn discovery_keys() {
    let dir = child_prefix("", "europe");
    assert_eq!(dir, "europe/");
    assert_eq!(tileset_key(&dir, "paris"), "europe/paris");
    assert_eq!(tileset_key("", "world_cities"), "world_cities");
    assert!(is_tileset_file("mbtiles"));
    assert!(!is_tileset_file("sqlite"));
}

#[test]
fn registry_keeps_unique_ids_last_wins() {
    let mut r = Registry::new();
    assert!(!r.insert(meta("a", &PNG)));
    assert!(!r.insert(meta("b", &[0x1f, 0x8b])));
    assert!(r.insert(meta("a", &[0xff, 0xd8, 0xff])));
    assert_eq!(r.len(), 2);
    assert_eq!(r.get("a").unwrap().tile_format, DataFormat::JPG);
    assert_eq!(r.get("b").unwrap().tile_format, DataFormat::PBF);
    assert!(r.get("c").is_none());
    for m in r.list() {
        assert!(m.tile_format != DataFormat::UNKNOWN && m.tile_format != DataFormat::GZIP);
    }
}

#[test]
fn snapshots_survive_reloads() {
    let mut first = Registry::new();
    first.insert(meta("old", &PNG));
    let mut tilesets = Tilesets::new(first);
    let held = tilesets.snapshot();

    let mut second = Registry::new();
    second.insert(meta("new", &PNG));
    let previous = tilesets.reload(second);

    assert!(held.get("old").is_some());
    assert!(held.get("new").is_none());
    assert!(previous.get("old").is_some());
    let now = tilesets.snapshot();
    assert!(now.get("new").is_some());
    assert!(now.get("old").is_none());
}
