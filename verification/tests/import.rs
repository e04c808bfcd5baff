//! Catalogs of importable threads.

use aoe::catalog::{canonical_text, is_canonical, ImportBinding, ImportBindings};
use aoe::identity::is_source_thread_id;
use aoe::import::{
    authenticate_bindings_file, check_import_request, load_import_binding, parse_import_bindings,
    read_import_bindings, FileFacts, ImportError, IMPORT_BINDINGS_PATH, MAX_IMPORT_BINDINGS_BYTES,
};
use aoe::json_text::json_string;
use serde_json::Value;

const CATALOG: &[u8] = b"{\"schema\":\"maya.aoe.import-bindings.v1\",\"type\":\"maya-aoe-import-bindings\",\"profile\":\"maya\",\"project_path\":\"/home/aaiyer/maya/maya-main\",\"source_catalog_sha256\":\"aaaaaaaaaaaaaaaaaaaaaaaaaaaaaaaaaaaaaaaaaaaaaaaaaaaaaaaaaaaaaaaa\",\"entries\":[{\"source_t3_thread_id\":\"aaaaaaaa-aaaa-4aaa-8aaa-aaaaaaaaaaaa\",\"title\":\"Imported thread\",\"managed_codex_session_id\":\"11111111-1111-4111-8111-111111111111\"},{\"source_t3_thread_id\":\"maya-import-bbbbbbbb-bbbb-4bbb-8bbb-bbbbbbbbbbbb\",\"title\":\"Imported prefixed thread\",\"managed_codex_session_id\":\"22222222-2222-4222-8222-222222222222\"}]}\n";

fn text(value: &Value, key: &str) -> Option<String> {
    value.get(key)?.as_str().map(str::to_owned)
}

fn decode_entry(value: &Value) -> Option<ImportBinding> {
    if value.as_object()?.len() != 3 {
        return None;
    }
    Some(ImportBinding {
        source_t3_thread_id: text(value, "source_t3_thread_id")?,
        title: text(value, "title")?,
        managed_codex_session_id: text(value, "managed_codex_session_id")?,
    })
}

fn decode(bytes: &[u8]) -> Option<ImportBindings> {
    let value: Value = serde_json::from_slice(bytes).ok()?;
    if value.as_object()?.len() != 6 {
        return None;
    }
    let entries: Option<Vec<ImportBinding>> =
        value.get("entries")?.as_array()?.iter().map(decode_entry).collect();
    Some(ImportBindings {
        schema: text(&value, "schema")?,
        kind: text(&value, "type")?,
        profile: text(&value, "profile")?,
        project_path: text(&value, "project_path")?,
        source_catalog_sha256: text(&value, "source_catalog_sha256")?,
        entries: entries?,
    })
}

fn parse(bytes: &[u8]) -> Result<ImportBindings, ImportError> {
    parse_import_bindings(bytes, decode(bytes))
}

fn catalog() -> ImportBindings {
    decode(CATALOG).unwrap()
}

fn rendered(catalog: &ImportBindings) -> Vec<u8> {
    let mut bytes = canonical_text(catalog).into_bytes();
    bytes.push(b'\n');
    bytes
}

fn verdict(catalog: ImportBindings) -> Option<ImportError> {
    parse_import_bindings(&rendered(&catalog), Some(catalog)).err()
}

#[test]
fn import_catalog_is_canonical_and_unique() {
    let bytes = CATALOG;
    let parsed = parse(bytes).expect("canonical catalog");
    assert_eq!(parsed.entries.len(), 2);

    let mut noncanonical = bytes.to_vec();
    noncanonical.insert(1, b' ');
    assert!(parse(&noncanonical).is_err());

    let duplicate = bytes
        .strip_suffix(b"]}\n")
        .expect("catalog suffix")
        .iter()
        .copied()
        .chain(b",{\"source_t3_thread_id\":\"aaaaaaaa-aaaa-4aaa-8aaa-aaaaaaaaaaaa\",\"title\":\"Other\",\"managed_codex_session_id\":\"33333333-3333-4333-8333-333333333333\"}]}\n".iter().copied())
        .collect::<Vec<_>>();
    assert!(parse(&duplicate).is_err());
    assert_eq!(parse(&noncanonical).unwrap_err(), ImportError::NotCanonical);
    assert_eq!(parse(&duplicate).unwrap_err(), ImportError::DuplicateSource);

    for invalid in [
        "0123456789abcdef",
        "AAAAAAAA-AAAA-4AAA-8AAA-AAAAAAAAAAAA",
        "maya-import-aaaaaaaa-aaaa-4aaa-8aaa-aaaaaaaaaaaa-extra",
    ] {
        assert!(
            !is_source_thread_id(invalid),
            "accepted source id {invalid}"
        );
    }
}

#[test]
fn the_canonical_text_is_what_serde_json_writes() {
    assert_eq!(rendered(&catalog()), CATALOG);
    assert!(is_canonical(&catalog(), CATALOG));
    let mut other = catalog();
    other.entries.clear();
    assert!(canonical_text(&other).ends_with(",\"entries\":[]}"));
    assert!(!is_canonical(&other, CATALOG));
}

#[test]
fn string_literals_escape_quotes_backslashes_and_control_characters() {
    assert_eq!(json_string("plain é"), "\"plain é\"");
    assert_eq!(json_string("\"\\/"), "\"\\\"\\\\/\"");
    assert_eq!(json_string("\u{8}\t\n\u{c}\r"), "\"\\b\\t\\n\\f\\r\"");
    assert_eq!(json_string("\u{0}\u{1f}\u{7f}"), "\"\\u0000\\u001f\u{7f}\"");
    assert_eq!(json_string(""), "\"\"");
}

#[test]
fn an_escaped_title_survives_the_round_trip() {
    let mut escaped = catalog();
    escaped.entries[0].title = "a \"quoted\"\tname\u{1}".into();
    let bytes = rendered(&escaped);
    let parsed = parse(&bytes).unwrap();
    assert_eq!(parsed.entries[0].title, "a \"quoted\"\tname\u{1}");
}

#[test]
fn contents_are_refused_before_their_catalog_is_looked_at() {
    assert_eq!(parse(b"").unwrap_err(), ImportError::MissingLineFeed);
    assert_eq!(
        parse(CATALOG.strip_suffix(b"\n").unwrap()).unwrap_err(),
        ImportError::MissingLineFeed
    );
    assert_eq!(parse(b"{}\n").unwrap_err(), ImportError::Malformed);
    let mut twice = CATALOG.to_vec();
    twice.push(b'\n');
    assert_eq!(parse(&twice).unwrap_err(), ImportError::NotCanonical);
}

#[test]
fn every_rule_of_a_catalog_is_enforced() {
    assert_eq!(verdict(catalog()), None);

    let mut c = catalog();
    c.schema = "maya.aoe.import-bindings.v2".into();
    assert_eq!(verdict(c), Some(ImportError::WrongSchema));
    let mut c = catalog();
    c.kind = "other".into();
    assert_eq!(verdict(c), Some(ImportError::WrongType));
    let mut c = catalog();
    c.profile = "other".into();
    assert_eq!(verdict(c), Some(ImportError::WrongProfile));
    let mut c = catalog();
    c.project_path = "/home".into();
    assert_eq!(verdict(c), Some(ImportError::WrongProject));
    let mut c = catalog();
    c.source_catalog_sha256 = "A".repeat(64);
    assert_eq!(verdict(c), Some(ImportError::InvalidDigest));
    let mut c = catalog();
    c.entries.clear();
    assert_eq!(verdict(c), Some(ImportError::NoEntries));
    let mut c = catalog();
    c.entries[1].source_t3_thread_id = "0123456789abcdef".into();
    assert_eq!(verdict(c), Some(ImportError::InvalidSource));
    let mut c = catalog();
    c.entries[0].title = " \u{3000}".into();
    assert_eq!(verdict(c), Some(ImportError::EmptyTitle));
    let mut c = catalog();
    c.entries[0].title = String::new();
    assert_eq!(verdict(c), Some(ImportError::EmptyTitle));
    let mut c = catalog();
    c.entries[0].title = "title ".into();
    assert_eq!(verdict(c), Some(ImportError::UntrimmedTitle));
    let mut c = catalog();
    c.entries[0].title = "\ttitle".into();
    assert_eq!(verdict(c), Some(ImportError::UntrimmedTitle));
    let mut c = catalog();
    c.entries[0].managed_codex_session_id = "11111111111141118111111111111111".into();
    assert_eq!(verdict(c), Some(ImportError::InvalidCodexId));
    let mut c = catalog();
    c.entries[1].managed_codex_session_id = c.entries[0].managed_codex_session_id.clone();
    assert_eq!(verdict(c), Some(ImportError::DuplicateCodexId));
    let mut c = catalog();
    c.entries[1].source_t3_thread_id = c.entries[0].source_t3_thread_id.clone();
    assert_eq!(verdict(c), Some(ImportError::DuplicateSource));
}

#[test]
fn the_first_wrong_entry_decides() {
    let mut c = catalog();
    c.entries[1].source_t3_thread_id = "wrong".into();
    c.entries[0].title = " x".into();
    assert_eq!(verdict(c), Some(ImportError::UntrimmedTitle));
    // A source with and without the import prefix counts as two sources.
    let mut c = catalog();
    c.entries[1].source_t3_thread_id = format!("maya-import-{}", c.entries[0].source_t3_thread_id);
    assert_eq!(verdict(c), None);
}

#[test]
fn a_binding_is_looked_up_by_source_and_digest() {
    let digest = "a".repeat(64);
    let lookup = |source: &str, digest: &str| load_import_binding(source, digest, CATALOG, decode(CATALOG));
    let binding = lookup("maya-import-bbbbbbbb-bbbb-4bbb-8bbb-bbbbbbbbbbbb", &digest).unwrap();
    assert_eq!(binding.title, "Imported prefixed thread");
    assert_eq!(binding.managed_codex_session_id, "22222222-2222-4222-8222-222222222222");
    assert_eq!(
        lookup("bbbbbbbb-bbbb-4bbb-8bbb-bbbbbbbbbbbb", &digest).unwrap_err(),
        ImportError::NotBound
    );
    assert_eq!(
        lookup("aaaaaaaa-aaaa-4aaa-8aaa-aaaaaaaaaaaa", &"b".repeat(64)).unwrap_err(),
        ImportError::DigestMismatch
    );
    assert_eq!(
        lookup("aaaaaaaa-aaaa-4aaa-8aaa-aaaaaaaaaaaa", "b").unwrap_err(),
        ImportError::InvalidDigest
    );
    assert_eq!(lookup("a", "b").unwrap_err(), ImportError::InvalidSource);
    assert_eq!(
        load_import_binding("aaaaaaaa-aaaa-4aaa-8aaa-aaaaaaaaaaaa", &digest, b"x", None).unwrap_err(),
        ImportError::MissingLineFeed
    );
    assert_eq!(
        check_import_request("aaaaaaaa-aaaa-4aaa-8aaa-aaaaaaaaaaaa", &digest),
        Ok(())
    );
    assert_eq!(check_import_request("x", &digest), Err(ImportError::InvalidSource));
    assert_eq!(
        check_import_request("aaaaaaaa-aaaa-4aaa-8aaa-aaaaaaaaaaaa", "x"),
        Err(ImportError::InvalidDigest)
    );
}

#[test]
fn the_catalog_file_is_authenticated() {
    let facts = FileFacts { is_file: true, links: 1, uid: 0, gid: 990, mode: 0o100440, len: 4 };
    assert_eq!(authenticate_bindings_file(&facts, 990), Ok(()));
    for (wrong, error) in [
        (FileFacts { is_file: false, ..facts }, ImportError::NotRegularFile),
        (FileFacts { links: 2, ..facts }, ImportError::LinkCount),
        (FileFacts { uid: 1000, ..facts }, ImportError::NotRootOwned),
        (FileFacts { gid: 0, ..facts }, ImportError::WrongGroup),
        (FileFacts { mode: 0o100644, ..facts }, ImportError::WrongMode),
        (FileFacts { mode: 0o104440, ..facts }, ImportError::WrongMode),
        (FileFacts { len: 0, ..facts }, ImportError::InvalidSize),
        (FileFacts { len: MAX_IMPORT_BINDINGS_BYTES + 1, ..facts }, ImportError::InvalidSize),
    ] {
        assert_eq!(authenticate_bindings_file(&wrong, 990), Err(error));
        assert_eq!(read_import_bindings(&wrong, 990, vec![0; 4]), Err(error));
    }
    let full = FileFacts { len: MAX_IMPORT_BINDINGS_BYTES, ..facts };
    assert_eq!(authenticate_bindings_file(&full, 990), Ok(()));
    assert_eq!(read_import_bindings(&facts, 990, vec![1, 2, 3, 4]), Ok(vec![1, 2, 3, 4]));
    assert_eq!(
        read_import_bindings(&facts, 990, vec![1, 2, 3]),
        Err(ImportError::ChangedWhileReading)
    );
}

#[test]
fn import_errors_say_what_is_wrong() {
    for (error, message) in [
        (ImportError::NotRegularFile, "import bindings is not a regular file"),
        (ImportError::LinkCount, "import bindings must have one link"),
        (ImportError::NotRootOwned, "import bindings must be root-owned"),
        (ImportError::WrongGroup, "import bindings has the wrong group"),
        (ImportError::WrongMode, "import bindings mode must be 0440"),
        (ImportError::InvalidSize, "import bindings has invalid size"),
        (ImportError::ChangedWhileReading, "import bindings changed while reading"),
        (ImportError::MissingLineFeed, "import bindings must end in one LF"),
        (ImportError::NotCanonical, "import bindings JSON is not canonical"),
        (ImportError::WrongSchema, "wrong import bindings schema"),
        (ImportError::WrongType, "wrong import bindings type"),
        (ImportError::WrongProfile, "wrong import bindings profile"),
        (ImportError::WrongProject, "wrong import bindings project"),
        (ImportError::InvalidDigest, "invalid source catalog digest"),
        (ImportError::NoEntries, "import bindings has no entries"),
        (ImportError::InvalidSource, "invalid source T3 thread id"),
        (ImportError::EmptyTitle, "empty import title"),
        (ImportError::UntrimmedTitle, "non-canonical import title"),
        (ImportError::InvalidCodexId, "invalid managed Codex session id"),
        (ImportError::DuplicateSource, "duplicate source T3 thread id"),
        (ImportError::DuplicateCodexId, "duplicate managed Codex session id"),
        (ImportError::DigestMismatch, "source catalog digest mismatch"),
        (ImportError::NotBound, "source T3 thread is not bound for import"),
    ] {
        assert_eq!(error.message(), message);
    }
    assert_eq!(IMPORT_BINDINGS_PATH, "/run/maya-aoe-import-bindings.json");
}
