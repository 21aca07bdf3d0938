use mbtileserver::errors::Error;
use mbtileserver::utils::{decode, encode, get_blank_image, get_data_format, DataFormat};

#[test]
fn sniffs_leading_bytes() {
    assert_eq!(get_data_format(&vec![0x1f, 0x8b, 0x08]), DataFormat::GZIP);
    assert_eq!(get_data_format(&vec![0x78, 0x9c, 0x01]), DataFormat::ZLIB);
    assert_eq!(
        get_data_format(&vec![0x89, 0x50, 0x4e, 0x47, 0x0d, 0x0a, 0x1a, 0x0a, 0]),
        DataFormat::PNG
    );
    assert_eq!(get_data_format(&vec![0xff, 0xd8, 0xff, 0xe0]), DataFormat::JPG);
    let mut webp = b"RIFF".to_vec();
    webp.extend_from_slice(&[1, 2, 3, 4]);
    webp.extend_from_slice(b"WEBPVP8 ");
    assert_eq!(get_data_format(&webp), DataFormat::WEBP);
    assert_eq!(get_data_format(&b"{\"a\":1}".to_vec()), DataFormat::UNKNOWN);
    assert_eq!(get_data_format(&vec![]), DataFormat::UNKNOWN);
    assert_eq!(get_data_format(&vec![0x1f]), DataFormat::UNKNOWN);
}

#[test]
fn format_names_and_types() {
    assert_eq!(DataFormat::new("png"), DataFormat::PNG);
    assert_eq!(DataFormat::new("jpeg"), DataFormat::JPG);
    assert_eq!(DataFormat::new("jpg"), DataFormat::JPG);
    assert_eq!(DataFormat::new("pbf"), DataFormat::PBF);
    assert_eq!(DataFormat::new("tiff"), DataFormat::UNKNOWN);
    assert_eq!(DataFormat::PBF.format(), "pbf");
    assert_eq!(DataFormat::GZIP.format(), "");
    assert_eq!(DataFormat::PBF.content_type(), "application/x-protobuf");
    assert_eq!(DataFormat::JPG.content_type(), "image/jpeg");
    assert!(DataFormat::ZLIB.is_compressed());
    assert!(!DataFormat::PNG.is_compressed());
}

#[test]
fn gzip_round_trip() {
    let text = "{\"grid\":[\"  !!\"],\"keys\":[\"\",\"1\"]} é";
    let packed = encode(text.as_bytes());
    assert_ne!(packed, text.as_bytes().to_vec());
    assert_eq!(get_data_format(&packed), DataFormat::GZIP);
    assert_eq!(decode(packed, DataFormat::GZIP).unwrap(), text);
    assert_eq!(get_data_format(&encode(b"x")), DataFormat::GZIP);
    assert_eq!(decode(encode(b""), DataFormat::GZIP).unwrap(), "");
}

#[test]
fn zlib_decoding() {
    // "hi" compressed with zlib at the default level.
    let packed = vec![0x78, 0x9c, 0xcb, 0xc8, 0x04, 0x00, 0x01, 0x3b, 0x00, 0xd2];
    assert_eq!(decode(packed, DataFormat::ZLIB).unwrap(), "hi");
}

#[test]
fn decode_errors() {
    assert_eq!(
        decode(vec![1, 2, 3], DataFormat::PNG),
        Err(Error::InvalidDataFormat("png".to_string()))
    );
    assert_eq!(
        decode(vec![1, 2, 3], DataFormat::GZIP),
        Err(Error::InvalidDataFormat("gzip".to_string()))
    );
    assert_eq!(
        decode(vec![0x78, 0x9c, 0], DataFormat::ZLIB),
        Err(Error::InvalidDataFormat("zlib".to_string()))
    );
    let not_text = encode(&[0xff, 0xfe, 0x00]);
    assert!(decode(not_text, DataFormat::GZIP).is_err());
}

#[test]
fn blank_image_is_png() {
    let image = get_blank_image();
    assert_eq!(image.len(), 68);
    assert_eq!(get_data_format(&image), DataFormat::PNG);
    // IHDR: width 1, height 1, 8-bit RGBA.
    assert_eq!(&image[12..16], b"IHDR");
    assert_eq!(&image[16..24], &[0, 0, 0, 1, 0, 0, 0, 1]);
    assert_eq!(image[24], 8);
    assert_eq!(image[25], 6);
    assert_eq!(&image[image.len() - 8..], b"IEND\xaeB`\x82");
}

#[test]
fn error_messages() {
    assert_eq!(
        Error::MissingTable("a".to_string()).message(),
        "Missing tiles or metadata tables: a"
    );
    assert_eq!(Error::UnknownTileFormat("b".to_string()).message(), "Unknown tile format: b");
    assert_eq!(Error::InvalidDataFormat("c".to_string()).message(), "Invalid data format: c");
    assert_eq!(
        Error::InvalidDataFormatQueryCategory("d".to_string()).message(),
        "Invalid query category: d"
    );
    assert_eq!(Error::Config("e".to_string()).message(), "e");
    assert_eq!(Error::Pool("x".to_string()).message(), "Database pool connection error");
    assert_eq!(Error::DBConnection("x".to_string()).message(), "Database connection error");
}
