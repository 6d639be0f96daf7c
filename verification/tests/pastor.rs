use pastor::config::{parse_u64, AppConfig};
use pastor::dict::{adjectives, nouns};
use pastor::error::{IoFailure, MultipartFailure, PasteError};
use pastor::id::PasteId;
use pastor::paste::{cleanup_action, cleanup_action_at, require_content, Attribute, CleanupAction, Paste, Retrieval};
use pastor::paths::{file_name, join};
use pastor::recognize::Recognizer;
use pastor::text::Utf8Failure;
use pastor::tokens::TokenSet;
use pastor::upload::{record_outcome, upload_reply};
use pastor::util::expires;
use pastor::xattr::{
    decode_i64, decode_str, encode_i64, encode_str, XATTR_CREATED, XATTR_EXPIRES, XATTR_MIME,
    XATTR_TOKEN,
};

fn id(word: &str, ext: Option<&str>) -> PasteId {
    PasteId { id: word.to_string(), ext: ext.map(|e| e.to_string()) }
}

fn paste(word: &str) -> Paste {
    Paste {
        id: id(word, None),
        created: 17000000,
        expires: 18000000,
        token: "secrettoken".to_string(),
        mime: "text/plain".to_string(),
    }
}

#[test]
fn id_from_name_without_dot() {
    assert_eq!(PasteId::from("calmotter"), id("calmotter", None));
}

#[test]
fn id_from_name_with_extension() {
    assert_eq!(PasteId::from("calmotter.txt"), id("calmotter", Some("txt")));
}

#[test]
fn id_from_name_keeps_only_first_extension() {
    assert_eq!(PasteId::from("a.b.c"), id("a", Some("b")));
    assert_eq!(PasteId::from("a."), id("a", Some("")));
    assert_eq!(PasteId::from(".x"), id("", Some("x")));
    assert_eq!(PasteId::from(""), id("", None));
}

#[test]
fn id_display() {
    assert_eq!(id("calmotter", Some("png")).to_string(), "calmotter.png");
    assert_eq!(id("calmotter", None).to_string(), "calmotter");
    assert_eq!(PasteId::from("x.y").to_string(), "x.y");
}

#[test]
fn id_ext() {
    assert_eq!(id("a", Some("rs")).ext(), "rs");
    assert_eq!(id("a", None).ext(), "");
}

#[test]
fn id_validity() {
    assert!(id("calmotter", None).is_valid());
    assert!(id("", None).is_valid());
    assert!(!id("Calm", None).is_valid());
    assert!(!id("calm1", None).is_valid());
    assert!(!id("cälm", None).is_valid());
    assert!(id(&"a".repeat(128), None).is_valid());
    assert!(!id(&"a".repeat(129), None).is_valid());
}

#[test]
fn new_ids_are_dictionary_words_and_valid() {
    let adjs = adjectives();
    let ns = nouns();
    for _ in 0..50 {
        let fresh = PasteId::new();
        assert!(fresh.ext.is_none());
        assert!(fresh.is_valid());
        assert!(adjs.iter().any(|a| ns.iter().any(|n| format!("{a}{n}") == fresh.id)));
    }
}

#[test]
fn new_ids_vary() {
    let first = PasteId::new();
    assert!((0..200).any(|_| PasteId::new() != first));
}

#[test]
fn path_joins_word_only() {
    assert_eq!(id("calmotter", Some("txt")).path(b"/tmp/store"), b"/tmp/store/calmotter".to_vec());
    assert_eq!(id("calmotter", None).path(b"/tmp/store/"), b"/tmp/store/calmotter".to_vec());
    assert_eq!(paste("calmotter").path(b"store"), b"store/calmotter".to_vec());
}

#[test]
fn join_cases() {
    assert_eq!(join(b"", b"a"), b"a".to_vec());
    assert_eq!(join(b"/x", b"/abs"), b"/abs".to_vec());
    assert_eq!(join(b"/x", b"y"), b"/x/y".to_vec());
    assert_eq!(join(b"/x/", b"y"), b"/x/y".to_vec());
}

#[test]
fn file_name_cases() {
    assert_eq!(file_name(b"/tmp/store/calmotter"), Some(b"calmotter".to_vec()));
    assert_eq!(file_name(b"/tmp/store/calmotter/"), Some(b"calmotter".to_vec()));
    assert_eq!(file_name(b"a/./"), Some(b"a".to_vec()));
    assert_eq!(file_name(b"./a"), Some(b"a".to_vec()));
    assert_eq!(file_name(b"..."), Some(b"...".to_vec()));
    assert_eq!(file_name(b"a/.."), None);
    assert_eq!(file_name(b"/"), None);
    assert_eq!(file_name(b"."), None);
    assert_eq!(file_name(b""), None);
}

#[test]
fn file_name_agrees_with_std() {
    for p in ["/a/b", "a/b/", "a//b//", "/", "", ".", "..", "a/..", "a/.", "./", "x/./y/.", "/..", "..."] {
        let std_name = std::path::Path::new(p).file_name().map(|n| n.to_str().unwrap().as_bytes().to_vec());
        assert_eq!(file_name(p.as_bytes()), std_name, "path {p:?}");
    }
}

#[test]
fn join_agrees_with_std() {
    for (root, name) in [("/x", "y"), ("/x/", "y"), ("", "y"), ("/x", "/y"), ("x//", "y")] {
        let expected = std::path::Path::new(root).join(name).to_str().unwrap().as_bytes().to_vec();
        assert_eq!(join(root.as_bytes(), name.as_bytes()), expected);
    }
}

#[test]
fn id_from_path() {
    assert_eq!(PasteId::try_from_path(b"/tmp/store/calmotter"), Ok(id("calmotter", None)));
    assert_eq!(PasteId::try_from_path(b"/tmp/store/calm.txt"), Ok(id("calm", Some("txt"))));
    assert_eq!(
        PasteId::try_from_path(b"/tmp/.."),
        Err(PasteError::PasteIdFromPath(b"/tmp/..".to_vec()))
    );
    assert_eq!(
        PasteId::try_from_path(b"/tmp/\xff"),
        Err(PasteError::PasteIdFromPath(b"/tmp/\xff".to_vec()))
    );
}

#[test]
fn id_found_again_from_own_path() {
    let p = paste("bravecomet");
    let path = p.path(b"/srv/pastes");
    assert_eq!(PasteId::try_from_path(&path), Ok(id("bravecomet", None)));
}

fn expires_float(size: u64) -> i64 {
    let min_age = 5.0;
    let max_age = 365.0;
    let max_size = 512.0;
    let size: f64 = ((size / 1024) / 1024) as f64;
    let mut expiry = min_age + (-max_age + min_age) * (size / max_size - 1.0_f64).powf(3.0);
    if expiry < 5.0 {
        expiry = 5.0
    };
    (expiry * 86400.0) as i64
}

#[test]
fn expires_values() {
    assert_eq!(expires(0), 31536000);
    assert_eq!(expires(1048575), 31536000);
    assert_eq!(expires(512 * 1048576), 432000);
    assert_eq!(expires(u64::MAX), 432000);
    assert_eq!(expires(256 * 1048576), 432000 + 30375 * 256 * 256 * 256 / 131072);
}

#[test]
fn expires_matches_floating_point_formula() {
    for m in 0..=600u64 {
        let size = m * 1048576;
        assert_eq!(expires(size), expires_float(size), "size {m} MiB");
        assert_eq!(expires(size + 1048575), expires_float(size + 1048575), "size {m} MiB + rest");
    }
    for size in [u64::MAX, 1 << 40, 1 << 50] {
        assert_eq!(expires(size), expires_float(size));
    }
}

#[test]
fn i64_attribute_round_trip() {
    for v in [0i64, 1, -1, 17000000, i64::MIN, i64::MAX, 0x0102030405060708] {
        let bytes = encode_i64(v);
        assert_eq!(bytes, v.to_be_bytes().to_vec());
        assert_eq!(decode_i64(Ok(Some(bytes)), XATTR_CREATED), Ok(v));
    }
}

#[test]
fn i64_attribute_errors() {
    assert_eq!(decode_i64(Ok(None), XATTR_EXPIRES), Err(PasteError::XattrNotFound(XATTR_EXPIRES)));
    assert_eq!(decode_i64(Ok(Some(vec![1, 2, 3])), XATTR_EXPIRES), Err(PasteError::ParseError(vec![1, 2, 3])));
    let io = PasteError::IOError(IoFailure { not_found: false, message: "boom".to_string() });
    assert_eq!(decode_i64(Err(io.clone()), XATTR_EXPIRES), Err(io));
}

#[test]
fn str_attribute_round_trip_and_errors() {
    assert_eq!(encode_str("héllo"), "héllo".as_bytes().to_vec());
    assert_eq!(decode_str(Ok(Some(encode_str("héllo"))), XATTR_TOKEN), Ok("héllo".to_string()));
    assert_eq!(decode_str(Ok(None), XATTR_MIME), Err(PasteError::XattrNotFound(XATTR_MIME)));
    assert_eq!(
        decode_str(Ok(Some(vec![b'a', 0xff, b'b'])), XATTR_MIME),
        Err(PasteError::StrParseError(Utf8Failure { valid_up_to: 1, error_len: Some(1) }))
    );
    assert_eq!(
        decode_str(Ok(Some(vec![b'a', 0xe2, 0x82])), XATTR_MIME),
        Err(PasteError::StrParseError(Utf8Failure { valid_up_to: 1, error_len: None }))
    );
}

fn read(attrs: &[Attribute], i: usize) -> Result<Option<Vec<u8>>, PasteError> {
    Ok(Some(attrs[i].value.clone()))
}

#[test]
fn write_load() {
    let p = paste("merryotter");
    let attrs = p.attributes();
    assert_eq!(attrs.len(), 4);
    assert_eq!(attrs[0].name, "user.pastor.created");
    assert_eq!(attrs[1].name, "user.pastor.expires");
    assert_eq!(attrs[2].name, "user.pastor.token");
    assert_eq!(attrs[3].name, "user.pastor.mime");
    let loaded = Paste::from_attributes(p.id.clone(), read(&attrs, 0), read(&attrs, 1), read(&attrs, 2), read(&attrs, 3));
    assert_eq!(loaded, Ok(p));
}

#[test]
fn load_reports_first_failing_attribute() {
    let p = paste("merryotter");
    let attrs = p.attributes();
    let r = Paste::from_attributes(p.id.clone(), read(&attrs, 0), Ok(None), Ok(None), Ok(None));
    assert_eq!(r, Err(PasteError::XattrNotFound(XATTR_EXPIRES)));
    let r = Paste::from_attributes(p.id.clone(), read(&attrs, 0), read(&attrs, 1), read(&attrs, 2), Ok(Some(vec![0xc0])));
    assert_eq!(r, Err(PasteError::StrParseError(Utf8Failure { valid_up_to: 0, error_len: Some(1) })));
}

#[test]
fn expiry_at_given_instants() {
    let p = paste("a");
    assert_eq!(p.expired_at(18000000, 0), Ok(false));
    assert_eq!(p.expired_at(18000000, 1), Ok(true));
    assert_eq!(p.expired_at(18000001, 0), Ok(true));
    assert_eq!(p.expired_at(17999999, 999_999_999), Ok(false));
    let mut far = paste("b");
    far.expires = i64::MAX;
    assert_eq!(far.expired_at(0, 0), Err(PasteError::Time));
}

#[test]
fn expiry_now() {
    let mut p = paste("a");
    p.expires = 0;
    assert_eq!(p.expired(), Ok(true));
    p.expires = 200_000_000_000;
    assert_eq!(p.expired(), Ok(false));
    p.expires = i64::MIN;
    assert_eq!(p.expired(), Err(PasteError::Time));
}

#[test]
fn delete_authorization() {
    let p = paste("a");
    assert_eq!(p.authorize_delete(None), Ok(()));
    assert_eq!(p.authorize_delete(Some("secrettoken")), Ok(()));
    assert_eq!(p.authorize_delete(Some("other")), Err(PasteError::Unauthorized));
    assert_eq!(p.authorize_delete(Some("")), Err(PasteError::Unauthorized));
}

#[test]
fn cleanup_decisions() {
    let mut p = paste("a");
    p.expires = 100;
    assert_eq!(cleanup_action_at(&Ok(p), 200, 0), Ok(CleanupAction::Delete));
    let mut q = paste("b");
    q.expires = 300;
    assert_eq!(cleanup_action_at(&Ok(q), 200, 0), Ok(CleanupAction::Keep));
    assert_eq!(cleanup_action_at(&Err(PasteError::NoContent), 200, 0), Ok(CleanupAction::Delete));
    let mut r = paste("c");
    r.expires = i64::MAX;
    assert_eq!(cleanup_action_at(&Ok(r), 200, 0), Err(PasteError::Time));
}

/// Runs the sweep over entries listed in the given order, as the service
/// does: asking the library about each entry and removing those it says to.
fn sweep(entries: Vec<(&'static str, Result<Paste, PasteError>)>, now: i64) -> Vec<&'static str> {
    let mut kept = Vec::new();
    for (name, loaded) in entries {
        match cleanup_action_at(&loaded, now, 0).unwrap() {
            CleanupAction::Delete => {}
            CleanupAction::Keep => kept.push(name),
        }
    }
    kept
}

#[test]
fn cleanup() {
    let now = 1_700_000_000;
    let mut paste1 = paste("a");
    paste1.expires = now - 10;
    let mut paste2 = paste("b");
    paste2.expires = now + 60;
    let listed = |first_live: bool| {
        let mut p1 = paste("a");
        p1.expires = paste1.expires;
        let mut p2 = paste("b");
        p2.expires = paste2.expires;
        let broken = Err(PasteError::XattrNotFound(XATTR_CREATED));
        if first_live {
            vec![("paste2", Ok(p2)), ("broken", broken), ("paste1", Ok(p1))]
        } else {
            vec![("paste1", Ok(p1)), ("broken", broken), ("paste2", Ok(p2))]
        }
    };
    assert_eq!(sweep(listed(true), now), vec!["paste2"]);
    assert_eq!(sweep(listed(false), now), vec!["paste2"]);

    let mut expired = paste("a");
    expired.expires = 1;
    let mut live = paste("b");
    live.expires = 200_000_000_000;
    assert_eq!(cleanup_action(&Ok(expired)), Ok(CleanupAction::Delete));
    assert_eq!(cleanup_action(&Ok(live)), Ok(CleanupAction::Keep));
}

#[test]
fn cleanup_broken_file() {
    let broken: Result<Paste, PasteError> = Err(PasteError::XattrNotFound(XATTR_CREATED));
    assert_eq!(cleanup_action(&broken), Ok(CleanupAction::Delete));
}

#[test]
fn paste_from_content() {
    let ok = |s: &str| Ok::<String, PasteError>(s.to_string());
    assert_eq!(
        Paste::from_content_at(id("a", None), 0, 5, "t", ok("text/plain"), ok("???")),
        Err(PasteError::NoContent)
    );
    let p = Paste::from_content_at(id("a", None), 10, 5, "t", ok("image/jpeg"), ok("jpeg/jpg/jpe/jfif")).unwrap();
    assert_eq!(p, Paste { id: id("a", Some("jpeg")), created: 5, expires: 5 + 31536000, token: "t".into(), mime: "image/jpeg".into() });
    let p = Paste::from_content_at(id("a", None), 10, 5, "t", ok("text/plain"), ok("???")).unwrap();
    assert_eq!(p.id, id("a", None));
    let p = Paste::from_content_at(id("a", None), 10, 5, "t", ok("x"), ok("png")).unwrap();
    assert_eq!(p.id, id("a", Some("png")));
    let magic = PasteError::MagicError("no db".into());
    assert_eq!(Paste::from_content_at(id("a", None), 10, 5, "t", Err(magic.clone()), ok("png")), Err(magic.clone()));
    assert_eq!(Paste::from_content_at(id("a", None), 10, 5, "t", ok("x"), Err(magic.clone())), Err(magic));
}

fn recognizer(flags: magic::cookie::Flags) -> Recognizer {
    let cookie = magic::Cookie::open(flags).unwrap();
    let cookie = cookie.load(&magic::cookie::DatabasePaths::default()).unwrap();
    Recognizer { cookie }
}

#[test]
fn paste_from_content_overflow() {
    let ok = |s: &str| Ok::<String, PasteError>(s.to_string());
    assert_eq!(
        Paste::from_content_at(id("a", None), 10, i64::MAX - 10, "t", ok("x"), ok("???")),
        Err(PasteError::Time)
    );
    let magic = PasteError::MagicError("no db".into());
    assert_eq!(
        Paste::from_content_at(id("a", None), 10, i64::MAX - 10, "t", Err(magic), ok("???")),
        Err(PasteError::Time)
    );
    let last = i64::MAX - 31536000;
    let p = Paste::from_content_at(id("a", None), 10, last, "t", ok("x"), ok("???")).unwrap();
    assert_eq!(p.expires, i64::MAX);
}

#[test]
fn paste_from_handle() {
    let mime_db = recognizer(magic::cookie::Flags::MIME_TYPE);
    let ext_db = recognizer(magic::cookie::Flags::EXTENSION);
    assert_eq!(
        Paste::from_handle(id("a", None), 0, b"", "t", &mime_db, &ext_db),
        Err(PasteError::NoContent)
    );
    let text = b"hello world, this is plain text\n";
    let p = Paste::from_handle(id("a", None), 3, text, "t", &mime_db, &ext_db).unwrap();
    assert_eq!(p.mime, "text/plain");
    assert_eq!(p.id, id("a", None));
    assert_eq!(p.token, "t");
    assert_eq!(p.expires - p.created, 31536000);
    assert!(p.created > 1_600_000_000);
    let png: Vec<u8> = vec![
        0x89, b'P', b'N', b'G', 0x0d, 0x0a, 0x1a, 0x0a, 0, 0, 0, 0x0d, b'I', b'H', b'D', b'R',
        0, 0, 0, 1, 0, 0, 0, 1, 8, 6, 0, 0, 0, 0x1f, 0x15, 0xc4, 0x89,
    ];
    let p = Paste::from_handle(id("b", None), 33, &png, "t", &mime_db, &ext_db).unwrap();
    assert_eq!(p.mime, "image/png");
    assert_eq!(p.id, id("b", Some("png")));
}

#[test]
fn error_messages() {
    let io = PasteError::IOError(IoFailure { not_found: true, message: "No such file or directory (os error 2)".into() });
    assert_eq!(io.message(), "io error: No such file or directory (os error 2)");
    assert_eq!(PasteError::XattrNotFound(XATTR_TOKEN).message(), "xattr field not found: user.pastor.token");
    assert_eq!(PasteError::ParseError(vec![1, 20, 255]).message(), "failed to parse: [1, 20, 255]");
    assert_eq!(PasteError::ParseError(vec![]).message(), "failed to parse: []");
    assert_eq!(
        PasteError::StrParseError(Utf8Failure { valid_up_to: 12, error_len: Some(2) }).message(),
        "failed to parse: invalid utf-8 sequence of 2 bytes from index 12"
    );
    assert_eq!(
        PasteError::StrParseError(Utf8Failure { valid_up_to: 3, error_len: None }).message(),
        "failed to parse: incomplete utf-8 byte sequence from index 3"
    );
    assert_eq!(PasteError::MagicError("bad".into()).message(), "failed to guess mime type: bad");
    assert_eq!(PasteError::PasteIdFromPath(b"/a/..".to_vec()).message(), "failed to parse PasteId from path: /a/..");
    assert_eq!(PasteError::PasteIdFromPath(b"/a/\xff".to_vec()).message(), "failed to parse PasteId from path: /a/\u{fffd}");
    assert_eq!(PasteError::Unauthorized.message(), "Unauthorized to operate on this paste");
    assert_eq!(PasteError::NoContent.message(), "paste did not contain any content");
    assert_eq!(PasteError::NotFound.message(), "NOT FOUND");
    assert_eq!(PasteError::Time.message(), "time did not work");
}

#[test]
fn utf8_failure_text_matches_std() {
    for bytes in [vec![b'a', 0xff], vec![0xe2, 0x82], vec![b'x', b'y', 0xc3, 0x28]] {
        let e = std::str::from_utf8(&bytes).unwrap_err();
        let ours = PasteError::StrParseError(Utf8Failure { valid_up_to: e.valid_up_to(), error_len: e.error_len() });
        assert_eq!(ours.message(), format!("failed to parse: {e}"));
    }
}

#[test]
fn error_responses() {
    let r = PasteError::NotFound.response();
    assert_eq!((r.status, r.body.as_str()), (404, "NOT FOUND"));
    let r = PasteError::Unauthorized.response();
    assert_eq!((r.status, r.body.as_str()), (401, "Unauthorized to operate on this paste"));
    let r = PasteError::NoContent.response();
    assert_eq!((r.status, r.body.as_str()), (400, "paste did not contain any content"));
    let r = PasteError::IOError(IoFailure { not_found: true, message: String::new() }).response();
    assert_eq!((r.status, r.body.as_str()), (404, "NOT FOUND\n"));
    let r = PasteError::IOError(IoFailure { not_found: false, message: "x".into() }).response();
    assert_eq!((r.status, r.body.as_str()), (500, ""));
    let r = PasteError::Time.response();
    assert_eq!((r.status, r.body.as_str()), (500, ""));
    let m = MultipartFailure { status: 413, status_text: "413 Payload Too Large".into(), message: "too big".into() };
    let r = PasteError::MultipartError(m).response();
    assert_eq!((r.status, r.body.as_str()), (413, "413 Payload Too Large"));
}

#[test]
fn upload_reply_lists_every_file() {
    assert_eq!(upload_reply("example.org", &vec![]), Err(PasteError::NoContent));
    let mut with_ext = paste("calmotter");
    with_ext.id.ext = Some("txt".into());
    let outcomes = vec![
        Ok(paste("bravecomet")),
        Err((id("x", None), PasteError::NoContent)),
        Ok(with_ext),
        Err((id("y", None), PasteError::Unauthorized)),
    ];
    let reply = upload_reply("example.org:3000", &outcomes).unwrap();
    assert_eq!(reply.error_status, Some(400));
    assert_eq!(
        reply.body,
        "https://example.org:3000/bravecomet\npaste did not contain any content\nhttps://example.org:3000/calmotter.txt\nUnauthorized to operate on this paste\n"
    );
    let reply = upload_reply("h", &vec![Ok(paste("a"))]).unwrap();
    assert_eq!(reply.error_status, None);
    assert_eq!(reply.body, "https://h/a\n");
}

#[test]
fn initial_load() {
    let tokens = TokenSet::from_tokens(vec!["testtoken".into(), "supertoken".into(), "anothertoken".into()]);
    assert!(tokens.contains("testtoken"));
    assert!(tokens.contains("supertoken"));
    assert!(tokens.contains("anothertoken"));
    assert!(!tokens.contains("test"));
}

#[test]
fn add_token() {
    let mut tokens = TokenSet::from_tokens(vec!["testtoken".into(), "supertoken".into(), "anothertoken".into()]);
    assert!(!tokens.contains("aftertoken"));
    tokens.replace(vec!["testtoken".into(), "supertoken".into(), "anothertoken".into(), "aftertoken".into()]);
    assert!(tokens.contains("aftertoken"));
    tokens.replace(vec![]);
    assert!(!tokens.contains("testtoken"));
    assert!(!TokenSet::new().contains(""));
}

#[test]
fn u64_parsing_matches_std() {
    for s in ["0", "42", "+7", "", "+", "-1", "12a", "18446744073709551615", "18446744073709551616", "007", "٣"] {
        assert_eq!(parse_u64(s), s.parse::<u64>().ok(), "input {s:?}");
    }
}

#[test]
fn config_defaults_and_overrides() {
    let c = AppConfig::new("/srv".into(), None, None);
    assert_eq!(c.storage_dir, "/srv");
    assert_eq!(c.database_dir, "/srv/db");
    assert_eq!(c.token_file, "/srv/db/tokens.toml");
    assert_eq!(c.template_dir, None);
    assert_eq!(c.deletion_interval_ms, 3_600_000);
    let c = AppConfig::new("/srv".into(), Some("/var/db".into()), Some("5000".into()));
    assert_eq!(c.database_dir, "/var/db");
    assert_eq!(c.token_file, "/var/db");
    assert_eq!(c.template_dir, Some("/var/db".to_string()));
    assert_eq!(c.deletion_interval_ms, 5000);
}

#[test]
fn content_required() {
    assert_eq!(require_content(0), Err(PasteError::NoContent));
    assert_eq!(require_content(1), Ok(()));
}

#[test]
fn retrieval_decisions() {
    let p = paste("a");
    assert_eq!(p.retrieval_at(17_999_999, 0), Ok(Retrieval::Serve));
    assert_eq!(p.retrieval_at(18_000_000, 0), Ok(Retrieval::Serve));
    assert_eq!(p.retrieval_at(18_000_000, 5), Ok(Retrieval::Remove));
    let mut far = paste("b");
    far.expires = i64::MIN;
    assert_eq!(far.retrieval_at(0, 0), Err(PasteError::Time));
    assert_eq!(far.retrieval(), Err(PasteError::Time));
    let mut old = paste("c");
    old.expires = 0;
    assert_eq!(old.retrieval(), Ok(Retrieval::Remove));
    old.expires = 200_000_000_000;
    assert_eq!(old.retrieval(), Ok(Retrieval::Serve));
}

#[test]
fn token_authorization() {
    let tokens = TokenSet::from_tokens(vec!["testtoken".into()]);
    assert_eq!(tokens.authorize("testtoken"), Ok(()));
    let refused = tokens.authorize("nope").unwrap_err();
    assert_eq!((refused.status, refused.body.as_str()), (401, "UNAUTHORIZED"));
}

#[test]
fn representable_range_matches_chrono() {
    let first: i64 = -8334601228800;
    let last: i64 = 8210266876799;
    assert_eq!(chrono::DateTime::<chrono::Utc>::MIN_UTC.timestamp(), first);
    assert_eq!(chrono::DateTime::<chrono::Utc>::MAX_UTC.timestamp(), last);
    let mut p = paste("a");
    for (secs, ok) in [(first, true), (first - 1, false), (last, true), (last + 1, false), (0, true)] {
        assert_eq!(chrono::DateTime::<chrono::Utc>::from_timestamp(secs, 0).is_some(), ok);
        p.expires = secs;
        assert_eq!(p.expired_at(0, 0).is_ok(), ok, "secs {secs}");
    }
}

#[test]
fn outcomes_are_recorded() {
    let mut outcomes = Vec::new();
    assert!(!record_outcome(&mut outcomes, id("a", None), Ok(paste("a"))));
    assert!(record_outcome(&mut outcomes, id("b", None), Err(PasteError::NoContent)));
    assert_eq!(outcomes, vec![Ok(paste("a")), Err((id("b", None), PasteError::NoContent))]);
}
