use mbtileserver::config::{parse_duration, parse_header, Args};
use mbtileserver::errors::Error;

fn args_with_headers(headers: &[&str]) -> Args {
    let mut args = Args::new("./tiles".to_string());
    args.header = headers.iter().map(|h| h.to_string()).collect();
    args
}

#[test]
fn test_missing_directory() {
    let args = Args::new("/no/such/tiles".to_string()).post_parse(false);
    match args {
        Ok(_) => panic!("a missing directory must be refused"),
        Err(err) => {
            assert!(err.message().starts_with("Directory does not exists"));
            assert!(matches!(err, Error::Config(_)));
        }
    }
}

#[test]
fn test_valid_headers() {
    let args = args_with_headers(&[
        "cache-control: public,max-age=14400",
        "access-control-allow-origin: *",
    ])
    .post_parse(true)
    .unwrap();
    println!("{:?}", args.headers);
    assert_eq!(
        args.headers,
        vec![
            (
                "cache-control".to_string(),
                "public,max-age=14400".to_string(),
            ),
            (
                "access-control-allow-origin".to_string(),
                "*".to_string(),
            )
        ]
    );
}

#[test]
fn test_invalid_headers() {
    let args = args_with_headers(&[" k:"]).post_parse(true).unwrap();
    assert_eq!(args.headers, vec![]);

    let args = args_with_headers(&[" :v"]).post_parse(true).unwrap();
    assert_eq!(args.headers, vec![]);
}

#[test]
fn header_parsing_cases() {
    assert_eq!(
        parse_header("k:v"),
        Some(("k".to_string(), "v".to_string()))
    );
    assert_eq!(parse_header("k:"), None);
    assert_eq!(parse_header(":v"), None);
    assert_eq!(parse_header("kv"), None);
    assert_eq!(parse_header("a:b:c"), None);
    assert_eq!(
        parse_header("  X-Test :  yes  "),
        Some(("X-Test".to_string(), "yes".to_string()))
    );
}

#[test]
fn header_trimming_follows_unicode_white_space() {
    assert_eq!(
        parse_header("\u{a0}k\u{3000}:\u{2009}v\u{85}"),
        Some(("k".to_string(), "v".to_string()))
    );
    assert_eq!(parse_header("k:\u{200b}"), Some(("k".to_string(), "\u{200b}".to_string())));
    assert_eq!(parse_header("k:\u{2028}"), None);
}

#[test]
fn duration_parsing() {
    assert_eq!(parse_duration("1h30m"), Ok(5400));
    assert_eq!(parse_duration("2d"), Ok(172800));
    assert_eq!(parse_duration("45s"), Ok(45));
    assert_eq!(parse_duration("1d1h1m1s"), Ok(90061));
    for bad in ["", "h", "10", "1x", "1h30", "-1s", "1 h", "99999999999999999999s"] {
        assert!(
            matches!(parse_duration(bad), Err(Error::Config(_))),
            "{bad:?} must be refused"
        );
    }
    assert!(matches!(parse_duration("18446744073709551615m"), Err(Error::Config(_))));
}

#[test]
fn post_parse_trims_hosts_and_reads_interval() {
    let mut args = Args::new("./tiles".to_string());
    args.allowed_hosts = vec![" localhost ".to_string(), "example.com".to_string()];
    args.reload_interval = Some("1h30m".to_string());
    let args = args.post_parse(true).unwrap();
    assert_eq!(args.allowed_hosts, vec!["localhost".to_string(), "example.com".to_string()]);
    assert_eq!(args.reload_period, Some(5400));

    let mut bad = Args::new("./tiles".to_string());
    bad.reload_interval = Some("soon".to_string());
    assert!(matches!(bad.post_parse(true), Err(Error::Config(_))));
}

#[test]
fn defaults() {
    let args = Args::new("./tiles".to_string());
    assert_eq!(args.port, 3000);
    assert_eq!(args.allowed_hosts, vec!["localhost", "127.0.0.1", "[::1]"]);
    assert!(!args.disable_preview && !args.allow_reload_api && !args.disable_watcher);
}
