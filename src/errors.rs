use vstd::prelude::*;
use vstd::string::StringExecFns;

verus! {

/// What can go wrong while opening tilesets, decoding payloads or reading
/// the configuration.
#[derive(Debug, Clone, PartialEq, Eq)]
pub enum Error {
    /// A database query failed; the text is the database's own message.
    DBConnection(String),
    /// The connection pool could not be built; the text is the pool's message.
    Pool(String),
    /// The configuration is not usable.
    Config(String),
    /// The `tiles` or `metadata` table of the named tileset is missing.
    MissingTable(String),
    /// A payload was not of a format that can be decoded.
    InvalidDataFormat(String),
    /// A format probe was asked for an unknown category.
    InvalidDataFormatQueryCategory(String),
    /// The tiles of the named tileset are of no known format.
    UnknownTileFormat(String),
}

/// The text shown to a user for an error.
pub open spec fn error_message(e: Error) -> Seq<char> {
    match e {
        Error::Config(m) => m@,
        Error::MissingTable(n) => "Missing tiles or metadata tables: "@ + n@,
        Error::InvalidDataFormat(f) => "Invalid data format: "@ + f@,
        Error::InvalidDataFormatQueryCategory(n) => "Invalid query category: "@ + n@,
        Error::UnknownTileFormat(n) => "Unknown tile format: "@ + n@,
        Error::DBConnection(_) => "Database connection error"@,
        Error::Pool(_) => "Database pool connection error"@,
    }
}

impl Error {
    /// The text shown to a user for this error.
    pub fn message(&self) -> (r: String)
        ensures
            r@ == error_message(*self),
    {
        match self {
            Error::Config(m) => m.clone(),
            Error::MissingTable(n) => "Missing tiles or metadata tables: ".to_owned().concat(
                n.as_str(),
            ),
            Error::InvalidDataFormat(f) => "Invalid data format: ".to_owned().concat(f.as_str()),
            Error::InvalidDataFormatQueryCategory(n) => "Invalid query category: ".to_owned().concat(
                n.as_str(),
            ),
            Error::UnknownTileFormat(n) => "Unknown tile format: ".to_owned().concat(n.as_str()),
            Error::DBConnection(_) => "Database connection error".to_owned(),
            Error::Pool(_) => "Database pool connection error".to_owned(),
        }
    }
}

} // verus!
