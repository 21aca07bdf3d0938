use vstd::prelude::*;
use vstd::std_specs::iter::IteratorSpec;
use vstd::utf8::{encode_utf8, valid_utf8};

use crate::errors::Error;

verus! {

/// The payload kinds that a tile or grid blob can hold.
#[derive(Clone, Copy, Debug, PartialEq, Eq, Structural)]
pub enum DataFormat {
    PNG,
    JPG,
    WEBP,
    JSON,
    PBF,
    GZIP,
    ZLIB,
    UNKNOWN,
}

/// The format named by a file extension or a format word.
pub open spec fn format_of_name(name: Seq<char>) -> DataFormat {
    if name == "png"@ {
        DataFormat::PNG
    } else if name == "jpg"@ || name == "jpeg"@ {
        DataFormat::JPG
    } else if name == "webp"@ {
        DataFormat::WEBP
    } else if name == "json"@ {
        DataFormat::JSON
    } else if name == "pbf"@ {
        DataFormat::PBF
    } else if name == "gzip"@ {
        DataFormat::GZIP
    } else if name == "zlib"@ {
        DataFormat::ZLIB
    } else {
        DataFormat::UNKNOWN
    }
}

/// The short name (URL extension) of a format; empty for containers and unknown data.
pub open spec fn short_name(f: DataFormat) -> Seq<char> {
    match f {
        DataFormat::PNG => "png"@,
        DataFormat::JPG => "jpg"@,
        DataFormat::WEBP => "webp"@,
        DataFormat::JSON => "json"@,
        DataFormat::PBF => "pbf"@,
        _ => ""@,
    }
}

/// The MIME type of a format; empty for containers and unknown data.
pub open spec fn mime_type(f: DataFormat) -> Seq<char> {
    match f {
        DataFormat::PNG => "image/png"@,
        DataFormat::JPG => "image/jpeg"@,
        DataFormat::WEBP => "image/webp"@,
        DataFormat::JSON => "application/json"@,
        DataFormat::PBF => "application/x-protobuf"@,
        _ => ""@,
    }
}

/// Whether the format is a compressed container rather than a payload kind.
pub open spec fn is_container(f: DataFormat) -> bool {
    f == DataFormat::GZIP || f == DataFormat::ZLIB
}

/// The format that the leading bytes of a blob announce.
pub open spec fn sniff(b: Seq<u8>) -> DataFormat {
    if b.len() >= 2 && b[0] == 0x1f && b[1] == 0x8b {
        DataFormat::GZIP
    } else if b.len() >= 2 && b[0] == 0x78 && b[1] == 0x9c {
        DataFormat::ZLIB
    } else if b.len() >= 8 && b[0] == 0x89 && b[1] == 0x50 && b[2] == 0x4e && b[3] == 0x47
        && b[4] == 0x0d && b[5] == 0x0a && b[6] == 0x1a && b[7] == 0x0a {
        DataFormat::PNG
    } else if b.len() >= 3 && b[0] == 0xff && b[1] == 0xd8 && b[2] == 0xff {
        DataFormat::JPG
    } else if b.len() >= 12 && b[0] == 0x52 && b[1] == 0x49 && b[2] == 0x46 && b[3] == 0x46
        && b[8] == 0x57 && b[9] == 0x45 && b[10] == 0x42 && b[11] == 0x50 {
        DataFormat::WEBP
    } else {
        DataFormat::UNKNOWN
    }
}

/// Whether the characters `a` spell the word `lit`.
pub fn chars_eq(a: &Vec<char>, lit: &str) -> (r: bool)
    ensures
        r == (a@ == lit@),
{
    let w = chars_of(lit);
    if a.len() != w.len() {
        return false;
    }
    let mut i: usize = 0;
    while i < a.len()
        invariant
            w@ == lit@,
            a@.len() == w@.len(),
            0 <= i <= a@.len(),
            forall|j: int| 0 <= j < i ==> a@[j] == w@[j],
        decreases a@.len() - i,
    {
        if a[i] != w[i] {
            return false;
        }
        i = i + 1;
    }
    assert(a@ =~= w@);
    true
}

impl DataFormat {
    /// The format named by `format` ("png", "jpg" or "jpeg", "webp", "json",
    /// "pbf", "gzip", "zlib"); any other word gives `UNKNOWN`.
    pub fn new(format: &str) -> (r: DataFormat)
        ensures
            r == format_of_name(format@),
    {
        let name = chars_of(format);
        if chars_eq(&name, "png") {
            DataFormat::PNG
        } else if chars_eq(&name, "jpg") || chars_eq(&name, "jpeg") {
            DataFormat::JPG
        } else if chars_eq(&name, "webp") {
            DataFormat::WEBP
        } else if chars_eq(&name, "json") {
            DataFormat::JSON
        } else if chars_eq(&name, "pbf") {
            DataFormat::PBF
        } else if chars_eq(&name, "gzip") {
            DataFormat::GZIP
        } else if chars_eq(&name, "zlib") {
            DataFormat::ZLIB
        } else {
            DataFormat::UNKNOWN
        }
    }

    /// The short name used as the URL extension of tiles of this format.
    pub fn format(&self) -> (r: &'static str)
        ensures
            r@ == short_name(*self),
    {
        match *self {
            DataFormat::PNG => "png",
            DataFormat::JPG => "jpg",
            DataFormat::WEBP => "webp",
            DataFormat::JSON => "json",
            DataFormat::PBF => "pbf",
            DataFormat::GZIP => "",
            DataFormat::ZLIB => "",
            DataFormat::UNKNOWN => "",
        }
    }

    /// The MIME type served with tiles of this format.
    pub fn content_type(&self) -> (r: &'static str)
        ensures
            r@ == mime_type(*self),
    {
        match *self {
            DataFormat::PNG => "image/png",
            DataFormat::JPG => "image/jpeg",
            DataFormat::WEBP => "image/webp",
            DataFormat::JSON => "application/json",
            DataFormat::PBF => "application/x-protobuf",
            DataFormat::GZIP => "",
            DataFormat::ZLIB => "",
            DataFormat::UNKNOWN => "",
        }
    }

    /// Whether this format is a compressed container (GZIP or ZLIB).
    pub fn is_compressed(&self) -> (r: bool)
        ensures
            r == is_container(*self),
    {
        matches!(*self, DataFormat::GZIP | DataFormat::ZLIB)
    }
}

/// The characters of a string, in order.
pub(crate) fn chars_of(s: &str) -> (r: Vec<char>)
    ensures
        r@ == s@,
{
    broadcast use vstd::string::axiom_spec_iter, vstd::string::next_postcondition;

    let mut it = s.chars();
    let mut r: Vec<char> = Vec::new();
    loop
        invariant
            r@ + it.remaining() == s@,
            it.decrease() is Some,
        ensures
            r@ == s@,
        decreases it.decrease()->0,
    {
        match it.next() {
            Some(c) => {
                r.push(c);
            },
            None => {
                assert(r@ =~= s@);
                break ;
            },
        }
    }
    r
}

/// Classifies a blob by its leading bytes.
pub fn get_data_format(data: &Vec<u8>) -> (r: DataFormat)
    ensures
        r == sniff(data@),
{
    let n = data.len();
    if n >= 2 && data[0] == 0x1f && data[1] == 0x8b {
        DataFormat::GZIP
    } else if n >= 2 && data[0] == 0x78 && data[1] == 0x9c {
        DataFormat::ZLIB
    } else if n >= 8 && data[0] == 0x89 && data[1] == 0x50 && data[2] == 0x4e && data[3] == 0x47
        && data[4] == 0x0d && data[5] == 0x0a && data[6] == 0x1a && data[7] == 0x0a {
        DataFormat::PNG
    } else if n >= 3 && data[0] == 0xff && data[1] == 0xd8 && data[2] == 0xff {
        DataFormat::JPG
    } else if n >= 12 && data[0] == 0x52 && data[1] == 0x49 && data[2] == 0x46 && data[3] == 0x46
        && data[8] == 0x57 && data[9] == 0x45 && data[10] == 0x42 && data[11] == 0x50 {
        DataFormat::WEBP
    } else {
        DataFormat::UNKNOWN
    }
}

/// The bytes of a 1x1 fully transparent PNG image (8-bit RGBA), served in
/// place of a missing raster tile.
pub open spec fn blank_png() -> Seq<u8> {
    seq![
        0x89, 0x50, 0x4e, 0x47, 0x0d, 0x0a, 0x1a, 0x0a, 0x00, 0x00, 0x00, 0x0d,
        0x49, 0x48, 0x44, 0x52, 0x00, 0x00, 0x00, 0x01, 0x00, 0x00, 0x00, 0x01,
        0x08, 0x06, 0x00, 0x00, 0x00, 0x1f, 0x15, 0xc4, 0x89, 0x00, 0x00, 0x00,
        0x0b, 0x49, 0x44, 0x41, 0x54, 0x78, 0xda, 0x63, 0x60, 0x00, 0x02, 0x00,
        0x00, 0x05, 0x00, 0x01, 0xe9, 0xfa, 0xdc, 0xd8, 0x00, 0x00, 0x00, 0x00,
        0x49, 0x45, 0x4e, 0x44, 0xae, 0x42, 0x60, 0x82,
    ]
}

/// A transparent PNG image to stand in for a missing raster tile.
pub fn get_blank_image() -> (r: Vec<u8>)
    ensures
        r@ == blank_png(),
{
    let image = vec![
        0x89, 0x50, 0x4e, 0x47, 0x0d, 0x0a, 0x1a, 0x0a, 0x00, 0x00, 0x00, 0x0d,
        0x49, 0x48, 0x44, 0x52, 0x00, 0x00, 0x00, 0x01, 0x00, 0x00, 0x00, 0x01,
        0x08, 0x06, 0x00, 0x00, 0x00, 0x1f, 0x15, 0xc4, 0x89, 0x00, 0x00, 0x00,
        0x0b, 0x49, 0x44, 0x41, 0x54, 0x78, 0xda, 0x63, 0x60, 0x00, 0x02, 0x00,
        0x00, 0x05, 0x00, 0x01, 0xe9, 0xfa, 0xdc, 0xd8, 0x00, 0x00, 0x00, 0x00,
        0x49, 0x45, 0x4e, 0x44, 0xae, 0x42, 0x60, 0x82,
    ];
    assert(image@ =~= blank_png());
    image
}

/// What flate2's gzip decoder reads from a stream: the inflated bytes when
/// the whole stream is well formed, else nothing.
pub uninterp spec fn gunzip_of(b: Seq<u8>) -> Option<Seq<u8>>;

/// What flate2's zlib decoder reads from a stream: the inflated bytes when
/// the whole stream is well formed, else nothing.
pub uninterp spec fn unzlib_of(b: Seq<u8>) -> Option<Seq<u8>>;

/// The gzip stream that flate2's encoder writes for some bytes at the
/// default compression level.
pub uninterp spec fn gzip_of(b: Seq<u8>) -> Seq<u8>;

/// The bytes that a compressed container holds, if it can be inflated.
pub open spec fn inflated(data: Seq<u8>, f: DataFormat) -> Option<Seq<u8>> {
    match f {
        DataFormat::GZIP => gunzip_of(data),
        DataFormat::ZLIB => unzlib_of(data),
        _ => None,
    }
}

/// Whether decoding `data` as format `f` yields text.
pub open spec fn decodes_to_text(data: Seq<u8>, f: DataFormat) -> bool {
    inflated(data, f) matches Some(d) && valid_utf8(d)
}

/// The name given in the error for a payload that cannot be decoded.
pub open spec fn undecodable_name(f: DataFormat) -> Seq<char> {
    match f {
        DataFormat::GZIP => "gzip"@,
        DataFormat::ZLIB => "zlib"@,
        _ => short_name(f),
    }
}

/// Relies on flate2::read::GzDecoder with std's read_to_string: it yields
/// the inflated bytes as text when they are a whole, valid gzip stream of
/// UTF-8, and fails otherwise.
#[verifier::external_body]
fn gunzip_text(data: &[u8]) -> (r: Option<String>)
    ensures
        r matches Some(s) ==> gunzip_of(data@) == Some(encode_utf8(s@)),
        r is None ==> !(gunzip_of(data@) matches Some(d) && valid_utf8(d)),
{
    let mut s = String::new();
    match std::io::Read::read_to_string(&mut flate2::read::GzDecoder::new(data), &mut s) {
        Ok(_) => Some(s),
        Err(_) => None,
    }
}

/// Relies on flate2::read::ZlibDecoder with std's read_to_string: it yields
/// the inflated bytes as text when they are a whole, valid zlib stream of
/// UTF-8, and fails otherwise.
#[verifier::external_body]
fn unzlib_text(data: &[u8]) -> (r: Option<String>)
    ensures
        r matches Some(s) ==> unzlib_of(data@) == Some(encode_utf8(s@)),
        r is None ==> !(unzlib_of(data@) matches Some(d) && valid_utf8(d)),
{
    let mut s = String::new();
    match std::io::Read::read_to_string(&mut flate2::read::ZlibDecoder::new(data), &mut s) {
        Ok(_) => Some(s),
        Err(_) => None,
    }
}

/// Relies on flate2::write::GzEncoder at the default level writing into a
/// vector (which cannot fail): the stream opens with the ten-byte gzip header,
/// whose first bytes are 1F 8B, ends with the eight-byte trailer, and
/// inflates to the input.
#[verifier::external_body]
fn gzip(data: &[u8]) -> (r: Vec<u8>)
    ensures
        r@ == gzip_of(data@),
        r@.len() >= 18,
        r@[0] == 0x1f,
        r@[1] == 0x8b,
        gunzip_of(r@) == Some(data@),
{
    let mut e = flate2::write::GzEncoder::new(Vec::new(), flate2::Compression::default());
    std::io::Write::write_all(&mut e, data).unwrap();
    e.finish().unwrap()
}

/// Inflates a GZIP or ZLIB payload into text. Any other format gives
/// `InvalidDataFormat` with the format's short name; a container that does
/// not inflate to UTF-8 text gives `InvalidDataFormat` with "gzip" or "zlib".
pub fn decode(data: Vec<u8>, data_type: DataFormat) -> (r: Result<String, Error>)
    ensures
        r is Ok <==> is_container(data_type) && decodes_to_text(data@, data_type),
        r matches Ok(s) ==> inflated(data@, data_type) == Some(encode_utf8(s@)),
        r matches Err(e) ==> (e matches Error::InvalidDataFormat(m) && m@ == undecodable_name(
            data_type,
        )),
{
    proof {
        broadcast use vstd::utf8::encode_utf8_valid_utf8;

    }
    match data_type {
        DataFormat::GZIP => match gunzip_text(data.as_slice()) {
            Some(s) => Ok(s),
            None => Err(Error::InvalidDataFormat("gzip".to_owned())),
        },
        DataFormat::ZLIB => match unzlib_text(data.as_slice()) {
            Some(s) => Ok(s),
            None => Err(Error::InvalidDataFormat("zlib".to_owned())),
        },
        _ => Err(Error::InvalidDataFormat(data_type.format().to_owned())),
    }
}

/// Compresses bytes into a gzip stream at the default level. The stream is
/// sniffed as GZIP, and decoding it as GZIP gives back the input whenever the
/// input is UTF-8 text.
pub fn encode(data: &[u8]) -> (r: Vec<u8>)
    ensures
        r@ == gzip_of(data@),
        sniff(r@) == DataFormat::GZIP,
        inflated(r@, DataFormat::GZIP) == Some(data@),
        valid_utf8(data@) ==> decodes_to_text(r@, DataFormat::GZIP),
{
    gzip(data)
}

} // verus!
