use mbtileserver::config::Args;
use mbtileserver::registry::{Registry, Tilesets};
use mbtileserver::reload::{ReloadState, ReloadStep};
use mbtileserver::service::{
    add_headers, dispatch, flip_y, get_service, grid_response, host_allowed, host_name,
    is_allowed, missing_tileset, page_response, route, tile_response, Action, Request, Route,
};
use mbtileserver::tiles::{get_tile_details, TileMeta, TileProbe};
use mbtileserver::utils::{decode, get_blank_image, DataFormat};

fn tileset(id: &str, first_tile: &[u8], grids: bool, metadata: &[(&str, &str)]) -> TileMeta {
    let probe = TileProbe {
        core_tables: Ok(2),
        first_tile: Some(first_tile.to_vec()),
        grid_tables: if grids { 5 } else { 0 },
        first_grid: Some(vec![0x78, 0x9c, 0x01]),
        metadata: metadata.iter().map(|(k, v)| (k.to_string(), v.to_string())).collect(),
    };
    get_tile_details(&format!("./tiles/{id}.mbtiles"), id, &probe).unwrap()
}

fn sample_registry() -> Registry {
    let mut r = Registry::new();
    r.insert(tileset(
        "world_cities",
        &[0x1f, 0x8b, 0x08],
        false,
        &[("bounds", "-123.123590,-37.818085,174.763027,59.352706")],
    ));
    r.insert(tileset(
        "geography-class-png",
        &[0x89, 0x50, 0x4e, 0x47, 0x0d, 0x0a, 0x1a, 0x0a],
        true,
        &[],
    ));
    r
}

fn get(path: &str, query: Option<&str>) -> Request {
    Request {
        is_post: false,
        path: path.to_string(),
        query: query.map(|q| q.to_string()),
        host: Some("localhost:3000".to_string()),
        scheme: None,
    }
}

fn body_text(action: &Action) -> (u16, String) {
    match action {
        Action::Respond(r) => (r.status, String::from_utf8(r.body.clone()).unwrap()),
        other => panic!("expected a response, got {other:?}"),
    }
}

#[test]
fn allowed_host_patterns() {
    for h in ["localhost", "a.example.com", "example.com", "[::1]"] {
        assert!(is_allowed("*", h));
    }
    assert!(is_allowed(".example.com", "a.example.com"));
    assert!(is_allowed(".example.com", "b.a.example.com"));
    assert!(!is_allowed(".example.com", "example.com"));
    assert!(!is_allowed(".example.com", "badexample.com"));
    assert!(is_allowed("example.com", "example.com"));
    assert!(!is_allowed("example.com", "a.example.com"));
}

#[test]
fn host_header_ports() {
    assert_eq!(host_name("localhost:3000"), "localhost");
    assert_eq!(host_name("[::1]:3000"), "[::1]");
    assert_eq!(host_name("example.com"), "example.com");
    let allowed = vec!["localhost".to_string(), "[::1]".to_string()];
    assert!(host_allowed(&allowed, "localhost:3000"));
    assert!(host_allowed(&allowed, "[::1]:8080"));
    assert!(!host_allowed(&allowed, "evil.com"));
}

#[test]
fn y_axis_flip() {
    assert_eq!(flip_y(6, 22), Some(41));
    assert_eq!(flip_y(0, 0), Some(0));
    assert_eq!(flip_y(1, 0), Some(1));
    assert_eq!(flip_y(31, 0), Some((1u32 << 31) - 1));
    assert_eq!(flip_y(2, 4), None);
    assert_eq!(flip_y(32, 0), None);
}

#[test]
fn routes() {
    match route(false, "/services/a/b/tiles/6/10/22.pbf", false) {
        Route::Tile { tileset, z, x, y, format } => {
            assert_eq!((tileset.as_str(), z, x, y, format.as_str()), ("a/b", 6, 10, 41, "pbf"));
        }
        other => panic!("{other:?}"),
    }
    assert!(matches!(route(false, "/services/a/tiles/1/0/0.png/", false), Route::Tile { .. }));
    assert!(matches!(route(false, "/services/a/tiles/1/0/5.png", false), Route::BadCoordinates));
    assert!(matches!(
        route(false, "/services/a/tiles/1/0/99999999999.png", false),
        Route::BadCoordinates
    ));
    assert!(matches!(route(false, "/services/a/tiles/x/0/0.png", false), Route::Detail { .. }));
    assert!(matches!(route(false, "/services", false), Route::List));
    assert!(matches!(route(false, "/services/", false), Route::List));
    match route(false, "/services/world_cities/map", false) {
        Route::Preview { tileset } => assert_eq!(tileset, "world_cities"),
        other => panic!("{other:?}"),
    }
    match route(false, "/services/world_cities/", false) {
        Route::Detail { tileset } => assert_eq!(tileset, "world_cities"),
        other => panic!("{other:?}"),
    }
    match route(false, "/static/js/app.js", false) {
        Route::Static { path } => assert_eq!(path, "static/js/app.js"),
        other => panic!("{other:?}"),
    }
    assert!(matches!(route(false, "/static/../secret", false), Route::NotFound));
    assert!(matches!(route(true, "/reload", true), Route::Reload));
    assert!(matches!(route(true, "/reload", false), Route::NotFound));
    assert!(matches!(route(false, "/reload", true), Route::NotFound));
    assert!(matches!(route(false, "/elsewhere", false), Route::NotFound));
}

#[test]
fn list_of_tilesets() {
    let r = sample_registry();
    match get_service(&get("/services", None), &r, &Args::new("./tiles".to_string())) {
        Action::List(v) => {
            assert_eq!(v.len(), 2);
            assert_eq!(v[0].image_type, DataFormat::PBF);
            assert_eq!(v[0].image_type.format(), "pbf");
            assert_eq!(v[1].image_type.format(), "png");
            assert_eq!(v[0].url, "http://localhost:3000/services/world_cities");
        }
        other => panic!("{other:?}"),
    }
}

#[test]
fn vector_tile_request() {
    let r = sample_registry();
    let action = get_service(
        &get("/services/world_cities/tiles/6/10/22.pbf", None),
        &r,
        &Args::new("./tiles".to_string()),
    );
    match action {
        Action::Tile { tileset, z, x, y, content_type, gzip, vector } => {
            assert_eq!((tileset.as_str(), z, x, y), ("world_cities", 6, 10, 41));
            assert_eq!(content_type, "application/x-protobuf");
            assert!(gzip && vector);
            let blob = vec![0x1f, 0x8b, 1, 2, 3];
            let resp = tile_response(&content_type, gzip, vector, Ok(Some(blob.clone())));
            assert_eq!(resp.status, 200);
            assert_eq!(resp.body, blob);
            assert_eq!(resp.content_type.as_deref(), Some("application/x-protobuf"));
            assert!(resp.gzip);
            let missing = tile_response(&content_type, gzip, vector, Ok(None));
            assert_eq!(missing.status, 404);
        }
        other => panic!("{other:?}"),
    }
}

#[test]
fn raster_tile_request() {
    let r = sample_registry();
    let action = get_service(
        &get("/services/geography-class-png/tiles/1/0/0.png", None),
        &r,
        &Args::new("./tiles".to_string()),
    );
    match action {
        Action::Tile { y, content_type, gzip, vector, .. } => {
            assert_eq!(y, 1);
            assert_eq!(content_type, "image/png");
            assert!(!gzip && !vector);
            let missing = tile_response(&content_type, gzip, vector, Ok(None));
            assert_eq!(missing.status, 200);
            assert_eq!(missing.body, get_blank_image());
            let failed = tile_response(&content_type, gzip, vector, Err("locked".to_string()));
            assert_eq!(failed.status, 500);
        }
        other => panic!("{other:?}"),
    }
}

#[test]
fn grid_request() {
    let r = sample_registry();
    let args = Args::new("./tiles".to_string());
    match get_service(&get("/services/geography-class-png/tiles/1/0/0.json", None), &r, &args) {
        Action::Grid { tileset, grid_format, y, .. } => {
            assert_eq!(tileset, "geography-class-png");
            assert_eq!(grid_format, DataFormat::ZLIB);
            assert_eq!(y, 1);
        }
        other => panic!("{other:?}"),
    }
    let no_grids = get_service(&get("/services/world_cities/tiles/1/0/0.json", None), &r, &args);
    assert_eq!(body_text(&no_grids).0, 404);
    let resp = grid_response(Some(b"{\"grid\":[]}".to_vec()));
    assert_eq!(resp.status, 200);
    assert!(resp.gzip);
    assert_eq!(decode(resp.body, DataFormat::GZIP).unwrap(), "{\"grid\":[]}");
    assert_eq!(grid_response(None).status, 404);
}

#[test]
fn tileset_descriptor() {
    let r = sample_registry();
    let args = Args::new("./tiles".to_string());
    match get_service(&get("/services/world_cities", None), &r, &args) {
        Action::Describe { tileset, map, tiles, grids } => {
            assert_eq!(tileset, "world_cities");
            assert_eq!(tiles, "http://localhost:3000/services/world_cities/tiles/{z}/{x}/{y}.pbf");
            assert_eq!(map, "http://localhost:3000/services/world_cities/map");
            assert_eq!(grids, None);
            let m = r.get("world_cities").unwrap();
            assert_eq!(
                m.tilejson.bounds.as_deref(),
                Some("-123.123590,-37.818085,174.763027,59.352706")
            );
        }
        other => panic!("{other:?}"),
    }
    let mut req = get("/services/geography-class-png", Some("key=1"));
    req.scheme = Some("https".to_string());
    match get_service(&req, &r, &args) {
        Action::Describe { tiles, grids, .. } => {
            assert_eq!(
                tiles,
                "https://localhost:3000/services/geography-class-png/tiles/{z}/{x}/{y}.png?key=1"
            );
            assert_eq!(
                grids.as_deref(),
                Some("https://localhost:3000/services/geography-class-png/tiles/{z}/{x}/{y}.json?key=1")
            );
        }
        other => panic!("{other:?}"),
    }
}

#[test]
fn reload_shows_new_tileset() {
    let mut tilesets = Tilesets::new(sample_registry());
    let mut args = Args::new("./tiles".to_string());
    args.allow_reload_api = true;
    let mut post = get("/reload", None);
    post.is_post = true;
    assert!(matches!(get_service(&post, &tilesets.snapshot(), &args), Action::Reload));
    let mut next = sample_registry();
    next.insert(tileset("added", &[0xff, 0xd8, 0xff], false, &[]));
    tilesets.reload(next);
    match get_service(&get("/services", None), &tilesets.snapshot(), &args) {
        Action::List(v) => {
            assert_eq!(v.len(), 3);
            assert!(v.iter().any(|s| s.url.ends_with("/services/added")));
        }
        other => panic!("{other:?}"),
    }
}

#[test]
fn missing_tileset_is_404() {
    let r = sample_registry();
    let args = Args::new("./tiles".to_string());
    let action = get_service(&get("/services/does_not_exist", None), &r, &args);
    assert_eq!(
        body_text(&action),
        (404, "Tileset does not exist: does_not_exist".to_string())
    );
    let tile = get_service(&get("/services/nope/tiles/0/0/0.png", None), &r, &args);
    assert_eq!(body_text(&tile), (404, "Tileset does not exist: nope".to_string()));
    assert_eq!(missing_tileset("x").status, 404);
}

#[test]
fn forbidden_hosts_and_bad_coordinates() {
    let r = sample_registry();
    let args = Args::new("./tiles".to_string());
    let mut req = get("/services", None);
    req.host = Some("evil.com".to_string());
    assert_eq!(body_text(&get_service(&req, &r, &args)), (403, "Forbidden".to_string()));
    req.host = None;
    assert_eq!(body_text(&get_service(&req, &r, &args)).0, 403);
    let bad = get_service(&get("/services/world_cities/tiles/2/0/7.pbf", None), &r, &args);
    assert_eq!(body_text(&bad), (400, "Invalid tile coordinates".to_string()));
    let nothing = get_service(&get("/favicon.ico", None), &r, &args);
    assert_eq!(body_text(&nothing), (404, "Not Found".to_string()));
}

#[test]
fn preview_pages() {
    let r = sample_registry();
    let mut args = Args::new("./tiles".to_string());
    assert!(matches!(
        get_service(&get("/services/world_cities/map", None), &r, &args),
        Action::Preview { vector: true }
    ));
    assert!(matches!(
        dispatch(Route::Preview { tileset: "geography-class-png".to_string() }, "b", &None, &r, false),
        Action::Preview { vector: false }
    ));
    args.disable_preview = true;
    let off = get_service(&get("/services/world_cities/map", None), &r, &args);
    assert_eq!(body_text(&off).0, 404);
    assert_eq!(page_response(None).status, 404);
    assert_eq!(page_response(Some(b"<html>".to_vec())).status, 200);
}

#[test]
fn custom_headers_on_success_only() {
    let headers = vec![("Cache-Control".to_string(), "public".to_string())];
    let mut ok = page_response(Some(vec![1]));
    add_headers(&mut ok, &headers);
    assert_eq!(ok.headers, headers);
    let mut missing = page_response(None);
    add_headers(&mut missing, &headers);
    assert!(missing.headers.is_empty());
}

#[test]
fn reload_requests_coalesce() {
    let mut s = ReloadState::new();
    assert_eq!(s.request(), ReloadStep::Start);
    assert_eq!(s.request(), ReloadStep::Idle);
    assert_eq!(s.request(), ReloadStep::Idle);
    assert_eq!(s.finished(), ReloadStep::Start);
    assert_eq!(s.finished(), ReloadStep::Idle);
    assert!(!s.running && !s.pending);
}
