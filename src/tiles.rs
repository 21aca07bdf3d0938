use vstd::prelude::*;
use vstd::string::StringExecFns;

use crate::errors::Error;
use crate::text::{decimal_u64, parse_decimal};
use crate::utils::{chars_eq, chars_of, get_data_format, sniff, DataFormat};

verus! {

/// The descriptive fields of a tileset, as its `metadata` table gives them.
/// `bounds` and `center` keep the table's comma-separated text.
#[derive(Clone, Debug)]
pub struct TileJson {
    pub name: Option<String>,
    pub version: Option<String>,
    pub bounds: Option<String>,
    pub center: Option<String>,
    pub minzoom: Option<u8>,
    pub maxzoom: Option<u8>,
    pub description: Option<String>,
    pub attribution: Option<String>,
    pub legend: Option<String>,
    pub template: Option<String>,
}

/// One discovered tileset: where it lives, how its tiles and grids are
/// encoded, and what its metadata says. `json` keeps the text of the
/// embedded JSON object.
#[derive(Clone, Debug)]
pub struct TileMeta {
    pub path: String,
    pub tilejson: TileJson,
    pub id: String,
    pub tile_format: DataFormat,
    pub grid_format: Option<DataFormat>,
    pub layer_type: Option<String>,
    pub json: Option<String>,
}

/// One entry of the tileset list: the tile format and the descriptor's URL.
#[derive(Debug)]
pub struct TileSummaryJSON {
    pub image_type: DataFormat,
    pub url: String,
}

/// The answers of a tileset file to the questions asked when it is opened.
#[derive(Debug)]
pub struct TileProbe {
    /// How many of the `tiles` and `metadata` tables or views the schema
    /// lists, or the database's message when that query failed.
    pub core_tables: Result<u64, String>,
    /// The first blob of `tiles`, if there is one.
    pub first_tile: Option<Vec<u8>>,
    /// How many of the five UTF-Grid tables the schema lists.
    pub grid_tables: u64,
    /// The first blob of `grid_utfgrid`, if there is one.
    pub first_grid: Option<Vec<u8>>,
    /// The `(name, value)` rows of the `metadata` table.
    pub metadata: Vec<(String, String)>,
}

/// Asks the database for one tile blob.
pub const TILE_SAMPLE_QUERY: &'static str = "SELECT tile_data FROM tiles LIMIT 1";

/// Asks the database for one UTF-Grid blob.
pub const GRID_SAMPLE_QUERY: &'static str = "SELECT grid_utfgrid FROM grid_utfgrid LIMIT 1";

/// Counts the core tables of a tileset.
pub const CORE_TABLES_QUERY: &'static str =
    "SELECT count(*) FROM sqlite_master WHERE name IN ('tiles', 'metadata')";

/// Counts the UTF-Grid tables of a tileset.
pub const GRID_TABLES_QUERY: &'static str =
    "SELECT count(*) FROM sqlite_master WHERE name IN ('grids', 'grid_data', 'grid_utfgrid', 'keymap', 'grid_key')";

/// Reads the whole metadata table.
pub const METADATA_QUERY: &'static str = "SELECT name, value FROM metadata";

/// Reads one tile.
pub const TILE_QUERY: &'static str =
    "SELECT tile_data FROM tiles WHERE zoom_level = ?1 AND tile_column = ?2 AND tile_row = ?3";

/// Reads one UTF-Grid blob.
pub const GRID_QUERY: &'static str =
    "SELECT grid FROM grids WHERE zoom_level = ?1 AND tile_column = ?2 AND tile_row = ?3";

/// Reads the data rows of one UTF-Grid.
pub const GRID_DATA_QUERY: &'static str =
    "SELECT key_name, key_json FROM grid_data WHERE zoom_level = ?1 AND tile_column = ?2 AND tile_row = ?3";

/// How many UTF-Grid tables a tileset needs for its grids to be served.
pub const GRID_TABLE_COUNT: u64 = 5;

/// A tile format that can be registered: known, and not a bare container.
pub open spec fn servable(f: DataFormat) -> bool {
    f != DataFormat::UNKNOWN && f != DataFormat::GZIP
}

/// The format that a sampled row announces; no row announces nothing known.
pub open spec fn row_format(row: Option<Vec<u8>>) -> DataFormat {
    match row {
        Some(b) => sniff(b@),
        None => DataFormat::UNKNOWN,
    }
}

/// The format under which a tileset's tiles are served, if any: gzip
/// containers hold vector tiles.
pub open spec fn tile_format_spec(sampled: DataFormat) -> Option<DataFormat> {
    match sampled {
        DataFormat::UNKNOWN => None,
        DataFormat::GZIP => Some(DataFormat::PBF),
        f => Some(f),
    }
}

/// The grid format of a tileset: present only when all five grid tables are.
pub open spec fn grid_format_spec(grid_tables: u64, row: Option<Vec<u8>>) -> Option<DataFormat> {
    if grid_tables == GRID_TABLE_COUNT {
        Some(row_format(row))
    } else {
        None
    }
}

/// The SQL that samples one blob of a category ("tile" or "grid").
pub open spec fn sample_query(category: Seq<char>) -> Option<Seq<char>> {
    if category == "tile"@ {
        Some(TILE_SAMPLE_QUERY@)
    } else if category == "grid"@ {
        Some(GRID_SAMPLE_QUERY@)
    } else {
        None
    }
}

/// The SQL that samples one blob of `category`; any category but "tile"
/// and "grid" is refused with `InvalidDataFormatQueryCategory`.
pub fn format_query(tile_name: &str, category: &str) -> (r: Result<&'static str, Error>)
    ensures
        r matches Ok(q) ==> sample_query(category@) == Some(q@),
        r matches Err(e) ==> (e matches Error::InvalidDataFormatQueryCategory(n) && n@
            == tile_name@),
        r is Err <==> sample_query(category@) is None,
{
    let c = chars_of(category);
    if chars_eq(&c, "tile") {
        Ok(TILE_SAMPLE_QUERY)
    } else if chars_eq(&c, "grid") {
        Ok(GRID_SAMPLE_QUERY)
    } else {
        Err(Error::InvalidDataFormatQueryCategory(tile_name.to_owned()))
    }
}

/// The format of a sampled blob; a missing row gives `UNKNOWN`.
pub fn get_data_format_via_query(row: &Option<Vec<u8>>) -> (r: DataFormat)
    ensures
        r == row_format(*row),
{
    match row {
        Some(b) => get_data_format(b),
        None => DataFormat::UNKNOWN,
    }
}

/// The grid format of a tileset from its grid-table count and a sampled
/// grid blob; absent unless all five grid tables exist.
pub fn get_grid_info(grid_tables: u64, row: &Option<Vec<u8>>) -> (r: Option<DataFormat>)
    ensures
        r == grid_format_spec(grid_tables, *row),
{
    if grid_tables == GRID_TABLE_COUNT {
        Some(get_data_format_via_query(row))
    } else {
        None
    }
}

/// A zoom level written in decimal that fits in a byte.
pub open spec fn decimal_u8(s: Seq<char>) -> Option<u8> {
    match decimal_u64(s) {
        Some(v) => if v <= 255 {
            Some(v as u8)
        } else {
            None
        },
        None => None,
    }
}

/// A descriptor with none of its metadata fields set.
pub open spec fn empty_tilejson() -> TileJson {
    TileJson {
        name: None,
        version: None,
        bounds: None,
        center: None,
        minzoom: None,
        maxzoom: None,
        description: None,
        attribution: None,
        legend: None,
        template: None,
    }
}

/// A tileset with the fields that its metadata table fills left unset.
pub open spec fn cleared(m: TileMeta) -> TileMeta {
    TileMeta { tilejson: empty_tilejson(), layer_type: None, json: None, ..m }
}

/// The tileset after one metadata row: an empty value, an unknown name and
/// a zoom level that is not a byte in decimal leave it as it is.
pub open spec fn with_row(m: TileMeta, label: Seq<char>, value: String) -> TileMeta {
    let t = m.tilejson;
    if value@.len() == 0 {
        m
    } else if label == "name"@ {
        TileMeta { tilejson: TileJson { name: Some(value), ..t }, ..m }
    } else if label == "version"@ {
        TileMeta { tilejson: TileJson { version: Some(value), ..t }, ..m }
    } else if label == "bounds"@ {
        TileMeta { tilejson: TileJson { bounds: Some(value), ..t }, ..m }
    } else if label == "center"@ {
        TileMeta { tilejson: TileJson { center: Some(value), ..t }, ..m }
    } else if label == "minzoom"@ {
        match decimal_u8(value@) {
            Some(z) => TileMeta { tilejson: TileJson { minzoom: Some(z), ..t }, ..m },
            None => m,
        }
    } else if label == "maxzoom"@ {
        match decimal_u8(value@) {
            Some(z) => TileMeta { tilejson: TileJson { maxzoom: Some(z), ..t }, ..m },
            None => m,
        }
    } else if label == "description"@ {
        TileMeta { tilejson: TileJson { description: Some(value), ..t }, ..m }
    } else if label == "attribution"@ {
        TileMeta { tilejson: TileJson { attribution: Some(value), ..t }, ..m }
    } else if label == "type"@ {
        TileMeta { layer_type: Some(value), ..m }
    } else if label == "legend"@ {
        TileMeta { tilejson: TileJson { legend: Some(value), ..t }, ..m }
    } else if label == "template"@ {
        TileMeta { tilejson: TileJson { template: Some(value), ..t }, ..m }
    } else if label == "json"@ {
        TileMeta { json: Some(value), ..m }
    } else {
        m
    }
}

/// The tileset after the metadata rows, in order (a later row of the same
/// name wins).
pub open spec fn with_rows(m: TileMeta, rows: Seq<(String, String)>) -> TileMeta
    decreases rows.len(),
{
    if rows.len() == 0 {
        m
    } else {
        with_row(with_rows(m, rows.drop_last()), rows.last().0@, rows.last().1)
    }
}

/// A metadata row with an empty value changes nothing: the tileset built
/// from the rows is the tileset built from the rows without it.
pub proof fn law_empty_metadata_row_ignored(m: TileMeta, rows: Seq<(String, String)>, i: int)
    requires
        0 <= i < rows.len(),
        rows[i].1@.len() == 0,
    ensures
        with_rows(m, rows) == with_rows(m, rows.remove(i)),
    decreases rows.len(),
{
    if i == rows.len() - 1 {
        assert(rows.remove(i) =~= rows.drop_last());
    } else {
        law_empty_metadata_row_ignored(m, rows.drop_last(), i);
        assert(rows.remove(i).drop_last() =~= rows.drop_last().remove(i));
        assert(rows.remove(i).last() == rows.last());
    }
}

/// Reads a zoom level written in decimal.
fn parse_zoom(value: &String) -> (r: Option<u8>)
    ensures
        r == decimal_u8(value@),
{
    let cs = chars_of(value.as_str());
    assert(cs@.subrange(0, cs@.len() as int) =~= cs@);
    match parse_decimal(&cs, 0, cs.len()) {
        Some(v) => if v <= 255 {
            Some(v as u8)
        } else {
            None
        },
        None => None,
    }
}

/// Applies one `(name, value)` row of the metadata table to a tileset.
pub fn apply_metadata_row(meta: &mut TileMeta, label: &String, value: &String)
    ensures
        *final(meta) == with_row(*old(meta), label@, *value),
{
    if value.as_str().is_empty() {
        return ;
    }
    let l = chars_of(label.as_str());
    if chars_eq(&l, "name") {
        meta.tilejson.name = Some(value.clone());
    } else if chars_eq(&l, "version") {
        meta.tilejson.version = Some(value.clone());
    } else if chars_eq(&l, "bounds") {
        meta.tilejson.bounds = Some(value.clone());
    } else if chars_eq(&l, "center") {
        meta.tilejson.center = Some(value.clone());
    } else if chars_eq(&l, "minzoom") {
        if let Some(z) = parse_zoom(value) {
            meta.tilejson.minzoom = Some(z);
        }
    } else if chars_eq(&l, "maxzoom") {
        if let Some(z) = parse_zoom(value) {
            meta.tilejson.maxzoom = Some(z);
        }
    } else if chars_eq(&l, "description") {
        meta.tilejson.description = Some(value.clone());
    } else if chars_eq(&l, "attribution") {
        meta.tilejson.attribution = Some(value.clone());
    } else if chars_eq(&l, "type") {
        meta.layer_type = Some(value.clone());
    } else if chars_eq(&l, "legend") {
        meta.tilejson.legend = Some(value.clone());
    } else if chars_eq(&l, "template") {
        meta.tilejson.template = Some(value.clone());
    } else if chars_eq(&l, "json") {
        meta.json = Some(value.clone());
    }
}

/// Builds the description of a tileset from what its file answered: the
/// core tables must both exist, the first tile must be of a known format
/// (gzip is taken as vector tiles), grids count only when all five grid
/// tables exist, and each non-empty metadata row fills its field.
pub fn get_tile_details(path: &str, tile_name: &str, probe: &TileProbe) -> (r: Result<
    TileMeta,
    Error,
>)
    ensures
        r is Ok <==> (probe.core_tables matches Ok(c) && c >= 2 && tile_format_spec(
            row_format(probe.first_tile),
        ) is Some),
        probe.core_tables matches Err(m) ==> (r matches Err(e) && e == Error::DBConnection(m)),
        probe.core_tables matches Ok(c) && c < 2 ==> (r matches Err(e) && e
            matches Error::MissingTable(n) && n@ == tile_name@),
        probe.core_tables matches Ok(c) && c >= 2 && tile_format_spec(row_format(probe.first_tile))
            is None ==> (r matches Err(e) && e matches Error::UnknownTileFormat(n) && n@
            == tile_name@),
        r matches Ok(m) ==> {
            &&& m.path@ == path@
            &&& m.id@ == tile_name@
            &&& tile_format_spec(row_format(probe.first_tile)) == Some(m.tile_format)
            &&& servable(m.tile_format)
            &&& m.grid_format == grid_format_spec(probe.grid_tables, probe.first_grid)
            &&& m == with_rows(cleared(m), probe.metadata@)
        },
{
    match &probe.core_tables {
        Err(m) => {
            return Err(Error::DBConnection(m.clone()));
        },
        Ok(c) => {
            if *c < 2 {
                return Err(Error::MissingTable(tile_name.to_owned()));
            }
        },
    }
    let tile_format = match get_data_format_via_query(&probe.first_tile) {
        DataFormat::UNKNOWN => {
            return Err(Error::UnknownTileFormat(tile_name.to_owned()));
        },
        DataFormat::GZIP => DataFormat::PBF,
        f => f,
    };
    let mut meta = TileMeta {
        path: path.to_owned(),
        tilejson: TileJson {
            name: None,
            version: None,
            bounds: None,
            center: None,
            minzoom: None,
            maxzoom: None,
            description: None,
            attribution: None,
            legend: None,
            template: None,
        },
        id: tile_name.to_owned(),
        tile_format,
        grid_format: get_grid_info(probe.grid_tables, &probe.first_grid),
        layer_type: None,
        json: None,
    };
    let ghost start = meta;
    let mut i: usize = 0;
    while i < probe.metadata.len()
        invariant
            0 <= i <= probe.metadata@.len(),
            cleared(meta) == start,
            start == cleared(start),
            meta == with_rows(start, probe.metadata@.subrange(0, i as int)),
        decreases probe.metadata@.len() - i,
    {
        let row = &probe.metadata[i];
        apply_metadata_row(&mut meta, &row.0, &row.1);
        assert(probe.metadata@.subrange(0, i + 1).drop_last() =~= probe.metadata@.subrange(
            0,
            i as int,
        ));
        i = i + 1;
    }
    assert(probe.metadata@.subrange(0, i as int) =~= probe.metadata@);
    Ok(meta)
}

/// The registry key of a tileset file: the directories above it, each
/// followed by a slash, then the file's stem.
pub fn tileset_key(parent: &str, stem: &str) -> (r: String)
    ensures
        r@ == parent@ + stem@,
{
    parent.to_owned().concat(stem)
}

/// The key prefix for the tilesets inside directory `dir` under `parent`.
pub fn child_prefix(parent: &str, dir: &str) -> (r: String)
    ensures
        r@ == parent@ + dir@ + "/"@,
{
    parent.to_owned().concat(dir).concat("/")
}

/// Whether a file extension marks a tileset file.
pub fn is_tileset_file(extension: &str) -> (r: bool)
    ensures
        r == (extension@ == "mbtiles"@),
{
    chars_eq(&chars_of(extension), "mbtiles")
}

} // verus!
