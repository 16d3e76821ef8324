use privateer_core::catalog::Torrent;
use privateer_core::daemon::{
    check_response, connection_failed, connection_report, copy_fields, credentials, endpoint_for,
    listing_fields, make_trans_client, rpc_url, transmission_status, TorrentField,
};
use privateer_core::decimal::{decimal, parse_i64, parse_usize};
use privateer_core::error::{ConfigError, CopyError, PirateError, TransmissionError};
use privateer_core::store::{load_config, load_ledger};
use privateer_core::text::{identity_matches, lower, str_equal};
use privateer_core::wire::{
    AppError, CopyState, Destination, DownloadEntry, ErrorKind, TransmissionConfig,
    TransmissionStatus,
};

fn config_at(host: &str, port: u16) -> TransmissionConfig {
    TransmissionConfig {
        host: host.to_string(),
        port,
        username: None,
        password: None,
        movies_dir: None,
        shows_dir: None,
    }
}

fn torrent_with(added: &str, seeders: &str, leechers: &str, size: &str) -> Torrent {
    Torrent {
        added: added.to_string(),
        category: "207".to_string(),
        descr: None,
        download_count: None,
        id: "1".to_string(),
        info_hash: "ABCDEF".to_string(),
        leechers: leechers.to_string(),
        name: "A Film".to_string(),
        num_files: None,
        seeders: seeders.to_string(),
        size: size.to_string(),
        status: "vip".to_string(),
        username: "someone".to_string(),
        magnet: None,
    }
}

#[test]
fn destination_labels() {
    assert_eq!(Destination::Movies.label(), "Movies");
    assert_eq!(Destination::Shows.label(), "Shows");
    assert_eq!(Destination::default(), Destination::Movies);
}

#[test]
fn destination_from_numeric_category() {
    for cat in [201u32, 202, 207, 209, 299] {
        assert_eq!(Destination::from_category(cat), Some(Destination::Movies));
    }
    for cat in [205u32, 208] {
        assert_eq!(Destination::from_category(cat), Some(Destination::Shows));
    }
    for cat in [0u32, 100, 200, 203, 204, 206, 210, 298, 300, 601, u32::MAX] {
        assert_eq!(Destination::from_category(cat), None);
    }
}

#[test]
fn destination_from_text_category() {
    for cat in ["201", "202", "207", "209", "299"] {
        assert_eq!(Destination::from_category_str(cat), Some(Destination::Movies));
    }
    for cat in ["205", "208"] {
        assert_eq!(Destination::from_category_str(cat), Some(Destination::Shows));
    }
    for cat in ["", "2", "20", "2011", " 201", "201 ", "0201", "206", "movies", "\u{ff12}01"] {
        assert_eq!(Destination::from_category_str(cat), None);
    }
}

#[test]
fn text_and_numeric_categories_agree() {
    for cat in 0u32..1000 {
        assert_eq!(
            Destination::from_category_str(&cat.to_string()),
            Destination::from_category(cat)
        );
    }
}

#[test]
fn status_labels() {
    assert_eq!(TransmissionStatus::Stopped.label(), "Stopped");
    assert_eq!(TransmissionStatus::QueuedVerify.label(), "Queued (Verify)");
    assert_eq!(TransmissionStatus::Verifying.label(), "Verifying");
    assert_eq!(TransmissionStatus::QueuedDownload.label(), "Queued");
    assert_eq!(TransmissionStatus::Downloading.label(), "Downloading");
    assert_eq!(TransmissionStatus::QueuedSeed.label(), "Queued (Seed)");
    assert_eq!(TransmissionStatus::Seeding.label(), "Seeding");
    assert_eq!(TransmissionStatus::default(), TransmissionStatus::Stopped);
}

#[test]
fn status_codes() {
    assert_eq!(transmission_status(0), TransmissionStatus::Stopped);
    assert_eq!(transmission_status(1), TransmissionStatus::QueuedVerify);
    assert_eq!(transmission_status(2), TransmissionStatus::Verifying);
    assert_eq!(transmission_status(3), TransmissionStatus::QueuedDownload);
    assert_eq!(transmission_status(4), TransmissionStatus::Downloading);
    assert_eq!(transmission_status(5), TransmissionStatus::QueuedSeed);
    assert_eq!(transmission_status(6), TransmissionStatus::Seeding);
    assert_eq!(transmission_status(7), TransmissionStatus::Stopped);
    assert_eq!(transmission_status(-1), TransmissionStatus::Stopped);
    assert_eq!(transmission_status(i64::MAX), TransmissionStatus::Stopped);
    assert_eq!(transmission_status(i64::MIN), TransmissionStatus::Stopped);
}

#[test]
fn copy_state_indicators() {
    assert_eq!(CopyState::NotCopied.indicator(), "");
    assert_eq!(CopyState::Copying.indicator(), "\u{23F3}");
    assert_eq!(CopyState::Copied.indicator(), "\u{2705}");
    assert_eq!(CopyState::Failed.indicator(), "\u{274C}");
    assert_eq!(CopyState::default(), CopyState::NotCopied);
}

#[test]
fn copy_state_pending() {
    assert!(CopyState::NotCopied.pending());
    assert!(CopyState::Failed.pending());
    assert!(!CopyState::Copying.pending());
    assert!(!CopyState::Copied.pending());
}

#[test]
fn default_config_is_local_daemon() {
    let c = TransmissionConfig::default();
    assert_eq!(c.host, "localhost");
    assert_eq!(c.port, 9091);
    assert_eq!(c.username, None);
    assert_eq!(c.password, None);
    assert_eq!(c.movies_dir, None);
    assert_eq!(c.shows_dir, None);
}

#[test]
fn dir_for_picks_the_directory_of_the_destination() {
    let mut c = TransmissionConfig::default();
    assert_eq!(c.dir_for(Destination::Movies), None);
    assert_eq!(c.dir_for(Destination::Shows), None);
    c.movies_dir = Some("/media/movies".to_string());
    assert_eq!(c.dir_for(Destination::Movies), Some("/media/movies"));
    assert_eq!(c.dir_for(Destination::Shows), None);
    c.shows_dir = Some("".to_string());
    assert_eq!(c.dir_for(Destination::Shows), Some(""));
}

#[test]
fn app_error_keeps_kind_and_message() {
    let e = AppError::new(ErrorKind::Serialization, "Could not deserialize".to_string());
    assert_eq!(e.kind, ErrorKind::Serialization);
    assert_eq!(e.message, "Could not deserialize");
    assert_eq!(e.to_string(), "Could not deserialize");
}

#[test]
fn lower_touches_ascii_capitals_only() {
    assert_eq!(lower('A'), 'a');
    assert_eq!(lower('Z'), 'z');
    assert_eq!(lower('M'), 'm');
    assert_eq!(lower('a'), 'a');
    assert_eq!(lower('@'), '@');
    assert_eq!(lower('['), '[');
    assert_eq!(lower('0'), '0');
    assert_eq!(lower('\u{c9}'), '\u{c9}');
    for c in ['A', 'q', 'Z', '~', '\u{0}', '\u{7f}', '\u{e9}', '\u{1F600}'] {
        assert_eq!(lower(c), c.to_ascii_lowercase());
    }
}

#[test]
fn str_equal_is_equality() {
    assert!(str_equal("", ""));
    assert!(str_equal("abc", "abc"));
    assert!(!str_equal("abc", "abd"));
    assert!(!str_equal("abc", "ab"));
    assert!(!str_equal("ab", "abc"));
    assert!(!str_equal("abc", "ABC"));
    assert!(str_equal("h\u{e9}llo", "h\u{e9}llo"));
    assert!(!str_equal("h\u{e9}llo", "hello"));
}

#[test]
fn identities_match_without_regard_to_ascii_case() {
    assert!(identity_matches("", ""));
    assert!(identity_matches("abcdef0123", "ABCDEF0123"));
    assert!(identity_matches("AbCdEf", "aBcDeF"));
    assert!(!identity_matches("abcdef", "abcdeg"));
    assert!(!identity_matches("abcdef", "abcde"));
    assert!(!identity_matches("", "a"));
    assert!(!identity_matches("\u{e9}", "\u{c9}"));
    assert!(identity_matches("\u{e9}A", "\u{e9}a"));
    assert!(!identity_matches("@", "`"));
    assert!(!identity_matches("[", "{"));
    let samples = ["", "a", "A", "Ab", "aB", "ab ", "\u{e9}", "\u{c9}", "z9", "Z9", "@", "`"];
    for a in samples {
        for b in samples {
            assert_eq!(identity_matches(a, b), a.eq_ignore_ascii_case(b));
        }
    }
}

#[test]
fn decimal_writes_numbers() {
    assert_eq!(decimal(0), "0");
    assert_eq!(decimal(7), "7");
    assert_eq!(decimal(10), "10");
    assert_eq!(decimal(9091), "9091");
    assert_eq!(decimal(65535), "65535");
    assert_eq!(decimal(u64::MAX), "18446744073709551615");
    for n in [1u64, 9, 99, 100, 101, 1000, 12345, 1 << 40] {
        assert_eq!(decimal(n), n.to_string());
    }
}

#[test]
fn parse_i64_reads_signed_numbers() {
    assert_eq!(parse_i64("0"), Some(0));
    assert_eq!(parse_i64("42"), Some(42));
    assert_eq!(parse_i64("-42"), Some(-42));
    assert_eq!(parse_i64("+42"), Some(42));
    assert_eq!(parse_i64("007"), Some(7));
    assert_eq!(parse_i64("-0"), Some(0));
    assert_eq!(parse_i64("9223372036854775807"), Some(i64::MAX));
    assert_eq!(parse_i64("-9223372036854775808"), Some(i64::MIN));
    assert_eq!(parse_i64("9223372036854775808"), None);
    assert_eq!(parse_i64("-9223372036854775809"), None);
    assert_eq!(parse_i64("99999999999999999999999999999999999999999999"), None);
    assert_eq!(parse_i64(""), None);
    assert_eq!(parse_i64("-"), None);
    assert_eq!(parse_i64("+"), None);
    assert_eq!(parse_i64("--1"), None);
    assert_eq!(parse_i64("+-1"), None);
    assert_eq!(parse_i64(" 1"), None);
    assert_eq!(parse_i64("1 "), None);
    assert_eq!(parse_i64("1.5"), None);
    assert_eq!(parse_i64("12a"), None);
    assert_eq!(parse_i64("\u{663}"), None);
}

#[test]
fn parse_i64_agrees_with_the_standard_parser() {
    let samples = [
        "", "0", "-0", "+0", "1", "-1", "+1", "00000000000000000000000000001", "-", "+", "1-",
        "9223372036854775807", "9223372036854775808", "-9223372036854775808",
        "-9223372036854775809", "18446744073709551615", "18446744073709551616", "1e3", "0x10",
        "1_000", " 7", "7 ", "\u{ff11}", "12345678901234567890123",
        "-00000000000000000009223372036854775808",
    ];
    for s in samples {
        assert_eq!(parse_i64(s), s.parse::<i64>().ok());
    }
}

#[test]
fn parse_usize_reads_sizes() {
    assert_eq!(parse_usize("0"), Some(0));
    assert_eq!(parse_usize("1073741824"), Some(1073741824));
    assert_eq!(parse_usize("+5"), Some(5));
    assert_eq!(parse_usize("-5"), None);
    assert_eq!(parse_usize("-0"), None);
    assert_eq!(parse_usize(""), None);
    assert_eq!(parse_usize("+"), None);
    assert_eq!(parse_usize("12 MB"), None);
    assert_eq!(parse_usize(&usize::MAX.to_string()), Some(usize::MAX));
    assert_eq!(parse_usize("340282366920938463463374607431768211456"), None);
    let samples = ["", "0", "-0", "+0", "-", "+", "18446744073709551615", "18446744073709551616", "0009", "9a"];
    for s in samples {
        assert_eq!(parse_usize(s), s.parse::<usize>().ok());
    }
}

#[test]
fn torrent_numbers_default_to_zero() {
    let t = torrent_with("1700000000", "15", "-3", "734003200");
    assert_eq!(t.added_i64(), 1700000000);
    assert_eq!(t.seeders_i64(), 15);
    assert_eq!(t.leechers_i64(), -3);
    assert_eq!(t.size_bytes(), 734003200);
    let t = torrent_with("yesterday", "", "many", "-1");
    assert_eq!(t.added_i64(), 0);
    assert_eq!(t.seeders_i64(), 0);
    assert_eq!(t.leechers_i64(), 0);
    assert_eq!(t.size_bytes(), 0);
}

#[test]
fn torrent_size_label_is_scaled() {
    assert_eq!(torrent_with("0", "0", "0", "4221432").size_label(), "4.2MB");
    assert_eq!(torrent_with("0", "0", "0", "123000").size_label(), "123kB");
    assert_eq!(torrent_with("0", "0", "0", "123456").size_label(), "123.5kB");
    assert_eq!(torrent_with("0", "0", "0", "23").size_label(), "23B");
    assert_eq!(torrent_with("0", "0", "0", "0").size_label(), "0B");
    assert_eq!(torrent_with("0", "0", "0", "unknown").size_label(), "0B");
    assert_eq!(torrent_with("0", "0", "0", "1500000000").size_label(), "1.5GB");
}

#[test]
fn pirate_error_texts() {
    let e = PirateError::Search { message: "timed out".to_string() };
    assert_eq!(e.to_string(), "Search failed: timed out");
    let e = PirateError::Info { message: "no such id".to_string() };
    assert_eq!(e.to_string(), "Failed to get torrent info: no such id");
    let a = AppError::from(e);
    assert_eq!(a.kind, ErrorKind::PirateSearch);
    assert_eq!(a.message, "Failed to get torrent info: no such id");
}

#[test]
fn transmission_error_texts_and_kinds() {
    let e = TransmissionError::InvalidUrl {
        url: "http://:1/transmission/rpc".to_string(),
        source: "empty host".to_string(),
    };
    assert_eq!(e.to_string(), "Invalid Transmission URL 'http://:1/transmission/rpc': empty host");
    assert_eq!(AppError::from(e).kind, ErrorKind::InvalidUrl);
    let e = TransmissionError::Connection { message: "refused".to_string() };
    assert_eq!(e.to_string(), "Failed to connect to Transmission: refused");
    let a = AppError::from(e);
    assert_eq!(a.kind, ErrorKind::TransmissionConnection);
    assert_eq!(a.message, "Failed to connect to Transmission: refused");
    let e = TransmissionError::Rpc { message: "method name not recognized".to_string() };
    assert_eq!(e.to_string(), "Transmission RPC error: method name not recognized");
    assert_eq!(AppError::from(e).kind, ErrorKind::TransmissionRpc);
}

#[test]
fn config_error_texts() {
    let e = ConfigError::CreateDir { path: "/data".to_string(), source: "denied".to_string() };
    assert_eq!(e.to_string(), "Failed to create config directory '/data': denied");
    let e = ConfigError::WriteFile { path: "/data/l.json".to_string(), source: "full".to_string() };
    assert_eq!(e.to_string(), "Failed to write config to '/data/l.json': full");
    let e = ConfigError::Serialize { source: "bad key".to_string() };
    assert_eq!(e.to_string(), "Failed to serialize config: bad key");
    let a = AppError::from(e);
    assert_eq!(a.kind, ErrorKind::Config);
    assert_eq!(a.message, "Failed to serialize config: bad key");
}

#[test]
fn copy_error_texts() {
    let e = CopyError::CopySourceMissing { path: "/dl/x".to_string() };
    assert_eq!(e.to_string(), "Source path '/dl/x' does not exist");
    let e = CopyError::CopyNoDestDir { destination: Destination::Shows };
    assert_eq!(e.to_string(), "No destination directory configured for Shows");
    let e = CopyError::CopyCreateDir { path: "/m/x".to_string(), source: "denied".to_string() };
    assert_eq!(e.to_string(), "Failed to create directory '/m/x': denied");
    let e = CopyError::CopyFile {
        src: "/dl/x/a".to_string(),
        dst: "/m/x/a".to_string(),
        source: "disk full".to_string(),
    };
    assert_eq!(e.to_string(), "Failed to copy '/dl/x/a' to '/m/x/a': disk full");
    let e = CopyError::CopyReadDir { path: "/dl/x".to_string(), source: "gone".to_string() };
    assert_eq!(e.to_string(), "Failed to read directory '/dl/x': gone");
    let a = AppError::from(e);
    assert_eq!(a.kind, ErrorKind::Copy);
    assert_eq!(a.message, "Failed to read directory '/dl/x': gone");
}

#[test]
fn rpc_url_is_built_from_host_and_port() {
    assert_eq!(rpc_url(&TransmissionConfig::default()), "http://localhost:9091/transmission/rpc");
    assert_eq!(rpc_url(&config_at("192.168.1.5", 80)), "http://192.168.1.5:80/transmission/rpc");
    assert_eq!(rpc_url(&config_at("nas", 0)), "http://nas:0/transmission/rpc");
    assert_eq!(rpc_url(&config_at("nas", 65535)), "http://nas:65535/transmission/rpc");
    assert_eq!(rpc_url(&config_at("", 1)), "http://:1/transmission/rpc");
}

#[test]
fn credentials_need_a_user_name_and_a_password() {
    let mut c = TransmissionConfig::default();
    assert_eq!(credentials(&c), None);
    c.username = Some("admin".to_string());
    assert_eq!(credentials(&c), None);
    c.password = Some("secret".to_string());
    let got = credentials(&c).unwrap();
    assert_eq!(got.user, "admin");
    assert_eq!(got.password, "secret");
    c.username = Some("".to_string());
    assert_eq!(credentials(&c), None);
    c.username = None;
    assert_eq!(credentials(&c), None);
    c.username = Some("admin".to_string());
    c.password = Some("".to_string());
    let got = credentials(&c).unwrap();
    assert_eq!(got.user, "admin");
    assert_eq!(got.password, "");
}

#[test]
fn endpoint_for_follows_the_judgement() {
    let mut c = config_at("nas", 9091);
    c.username = Some("u".to_string());
    c.password = Some("p".to_string());
    let ok = endpoint_for(&c, None).unwrap();
    assert_eq!(ok.address, "http://nas:9091/transmission/rpc");
    assert_eq!(ok.auth.unwrap().user, "u");
    let err = endpoint_for(&c, Some("invalid port number".to_string())).unwrap_err();
    assert_eq!(
        err,
        TransmissionError::InvalidUrl {
            url: "http://nas:9091/transmission/rpc".to_string(),
            source: "invalid port number".to_string(),
        }
    );
}

#[test]
fn make_trans_client_accepts_a_well_formed_address() {
    let endpoint = make_trans_client(&TransmissionConfig::default()).unwrap();
    assert_eq!(endpoint.address, "http://localhost:9091/transmission/rpc");
    assert_eq!(endpoint.auth, None);
    let endpoint = make_trans_client(&config_at("10.0.0.2", 8080)).unwrap();
    assert_eq!(endpoint.address, "http://10.0.0.2:8080/transmission/rpc");
}

#[test]
fn make_trans_client_refuses_a_malformed_address() {
    let err = make_trans_client(&config_at("", 9091)).unwrap_err();
    assert_eq!(
        err,
        TransmissionError::InvalidUrl {
            url: "http://:9091/transmission/rpc".to_string(),
            source: "empty host".to_string(),
        }
    );
    let err = make_trans_client(&config_at("bad host", 9091)).unwrap_err();
    match err {
        TransmissionError::InvalidUrl { url, source } => {
            assert_eq!(url, "http://bad host:9091/transmission/rpc");
            assert_eq!(source, "invalid international domain name");
        }
        other => panic!("unexpected error {:?}", other),
    }
    let err = make_trans_client(&config_at("[::1", 9091)).unwrap_err();
    match err {
        TransmissionError::InvalidUrl { source, .. } => assert_eq!(source, "invalid IPv6 address"),
        other => panic!("unexpected error {:?}", other),
    }
}

#[test]
fn fields_asked_of_the_daemon() {
    assert_eq!(
        copy_fields(),
        vec![
            TorrentField::HashString,
            TorrentField::Name,
            TorrentField::Status,
            TorrentField::PercentDone,
            TorrentField::DownloadDir,
        ]
    );
    let listing = listing_fields();
    assert_eq!(listing.len(), 15);
    assert_eq!(listing[0], TorrentField::Id);
    assert_eq!(listing[1], TorrentField::Name);
    assert_eq!(listing[2], TorrentField::HashString);
    assert_eq!(listing[8], TorrentField::SizeWhenDone);
    assert_eq!(listing[14], TorrentField::DownloadDir);
}

#[test]
fn check_response_wants_the_word_success() {
    assert_eq!(check_response("success".to_string()), Ok(()));
    assert_eq!(
        check_response("no method name".to_string()),
        Err(TransmissionError::Rpc { message: "no method name".to_string() })
    );
    assert_eq!(
        check_response("Success".to_string()),
        Err(TransmissionError::Rpc { message: "Success".to_string() })
    );
    assert_eq!(
        check_response("".to_string()),
        Err(TransmissionError::Rpc { message: "".to_string() })
    );
}

#[test]
fn connection_report_names_the_version() {
    assert_eq!(
        connection_report("success".to_string(), "4.0.5 (a6fe2a64aa)".to_string()),
        Ok("Connected to Transmission 4.0.5 (a6fe2a64aa)".to_string())
    );
    assert_eq!(
        connection_report("success".to_string(), "".to_string()),
        Ok("Connected to Transmission unknown".to_string())
    );
    assert_eq!(
        connection_report("busy".to_string(), "4.0.5".to_string()),
        Err(TransmissionError::Rpc { message: "busy".to_string() })
    );
}

#[test]
fn connection_failed_keeps_the_reason() {
    assert_eq!(
        connection_failed("connection refused".to_string()),
        TransmissionError::Connection { message: "connection refused".to_string() }
    );
}

#[test]
fn load_ledger_degrades_to_empty() {
    assert_eq!(load_ledger(None), Vec::<DownloadEntry>::new());
    let entries = vec![DownloadEntry {
        info_hash: "aa".to_string(),
        name: "A".to_string(),
        destination: Destination::Shows,
        copy_state: CopyState::Failed,
    }];
    assert_eq!(load_ledger(Some(entries.clone())), entries);
}

#[test]
fn load_config_degrades_to_default() {
    assert_eq!(load_config(None), TransmissionConfig::default());
    let c = config_at("nas", 1234);
    assert_eq!(load_config(Some(c.clone())), c);
}
