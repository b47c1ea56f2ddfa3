use cargo_plumbing::json::{find_field, JsonValue};
use cargo_plumbing::protocol::{
    DecodeErrorKind, LockfileContentsMessage, Metadata, NormalizedDependency, NormalizedPatch,
};
use cargo_plumbing::stream::{decode_all, DecodeError};

fn t(s: &str) -> JsonValue {
    JsonValue::Text(s.to_string())
}

fn obj(entries: Vec<(&str, JsonValue)>) -> JsonValue {
    JsonValue::Object(entries.into_iter().map(|(k, v)| (k.to_string(), v)).collect())
}

fn entries_of(v: &JsonValue) -> &Vec<(String, JsonValue)> {
    match v {
        JsonValue::Object(es) => es,
        _ => panic!("expected an object"),
    }
}

#[test]
fn stream_of_two_records_in_order() {
    let input = vec![
        obj(vec![("reason", t("lockfile")), ("version", JsonValue::Number(3))]),
        obj(vec![("reason", t("locked-package")), ("name", t("foo"))]),
    ];
    let mut it = LockfileContentsMessage::parse_stream(input);
    match it.next() {
        Some(Ok(LockfileContentsMessage::Lockfile { version })) => assert_eq!(version, Some(3)),
        _ => panic!("expected the lockfile record"),
    }
    match it.next() {
        Some(Ok(LockfileContentsMessage::LockedPackage { package })) => {
            assert_eq!(package.name, "foo");
            assert_eq!(package.version, None);
            assert_eq!(package.source, None);
            assert_eq!(package.checksum, None);
        }
        _ => panic!("expected the package record"),
    }
    assert!(it.next().is_none());
}

#[test]
fn malformed_record_stops_the_stream() {
    let input = vec![
        obj(vec![("reason", t("lockfile")), ("version", JsonValue::Null)]),
        obj(vec![("reason", t("metadata")), ("key", t("k")), ("value", t("v"))]),
        obj(vec![("reason", t("locked-package"))]),
        obj(vec![("reason", t("lockfile"))]),
    ];
    let (records, err) = decode_all(input);
    assert_eq!(records.len(), 2);
    assert_eq!(err, Some(DecodeError { position: 2, kind: DecodeErrorKind::MissingField }));
}

#[test]
fn decoder_yields_nothing_after_an_error() {
    let input = vec![JsonValue::Null, obj(vec![("reason", t("lockfile"))])];
    let mut it = LockfileContentsMessage::parse_stream(input);
    match it.next() {
        Some(Err(e)) => assert_eq!(e, DecodeError { position: 0, kind: DecodeErrorKind::NotAnObject }),
        _ => panic!("expected an error"),
    }
    assert!(it.next().is_none());
    assert!(it.next().is_none());
}

#[test]
fn well_formed_stream_decodes_whole() {
    let input = vec![
        obj(vec![("reason", t("lockfile"))]),
        obj(vec![("reason", t("unused-patches")), ("unused", obj(vec![("name", t("p"))]))]),
    ];
    let (records, err) = decode_all(input);
    assert_eq!(records.len(), 2);
    assert!(err.is_none());
}

fn round_trip(m: LockfileContentsMessage) -> LockfileContentsMessage {
    LockfileContentsMessage::from_json(&m.to_json()).ok().unwrap()
}

#[test]
fn round_trip_every_kind() {
    match round_trip(LockfileContentsMessage::Lockfile { version: Some(4) }) {
        LockfileContentsMessage::Lockfile { version } => assert_eq!(version, Some(4)),
        _ => panic!("wrong kind"),
    }
    match round_trip(LockfileContentsMessage::Lockfile { version: None }) {
        LockfileContentsMessage::Lockfile { version } => assert_eq!(version, None),
        _ => panic!("wrong kind"),
    }
    let package = NormalizedDependency {
        name: "serde".to_string(),
        version: Some("1.0.0".to_string()),
        source: Some("registry+https://example.org".to_string()),
        checksum: None,
    };
    match round_trip(LockfileContentsMessage::LockedPackage { package }) {
        LockfileContentsMessage::LockedPackage { package } => {
            assert_eq!(package.name, "serde");
            assert_eq!(package.version.as_deref(), Some("1.0.0"));
            assert_eq!(package.source.as_deref(), Some("registry+https://example.org"));
            assert_eq!(package.checksum, None);
        }
        _ => panic!("wrong kind"),
    }
    let metadata = Metadata { key: "checksum a".to_string(), value: "00ff".to_string() };
    match round_trip(LockfileContentsMessage::Metadata { metadata }) {
        LockfileContentsMessage::Metadata { metadata } => {
            assert_eq!(metadata.key, "checksum a");
            assert_eq!(metadata.value, "00ff");
        }
        _ => panic!("wrong kind"),
    }
    let unused = NormalizedPatch { name: "p".to_string(), version: None, source: Some("git".to_string()) };
    match round_trip(LockfileContentsMessage::UnusedPatches { unused }) {
        LockfileContentsMessage::UnusedPatches { unused } => {
            assert_eq!(unused.name, "p");
            assert_eq!(unused.version, None);
            assert_eq!(unused.source.as_deref(), Some("git"));
        }
        _ => panic!("wrong kind"),
    }
}

#[test]
fn encoding_puts_reason_first() {
    let v = LockfileContentsMessage::Lockfile { version: Some(3) }.to_json();
    let es = entries_of(&v);
    assert_eq!(es.len(), 2);
    assert_eq!(es[0].0, "reason");
    assert!(matches!(&es[0].1, JsonValue::Text(s) if s == "lockfile"));
    assert_eq!(es[1].0, "version");
    assert!(matches!(es[1].1, JsonValue::Number(3)));
}

fn kind_of(v: JsonValue) -> DecodeErrorKind {
    match LockfileContentsMessage::from_json(&v) {
        Err(k) => k,
        Ok(_) => panic!("expected an error"),
    }
}

#[test]
fn each_decode_error() {
    assert_eq!(kind_of(JsonValue::Array(vec![])), DecodeErrorKind::NotAnObject);
    assert_eq!(kind_of(obj(vec![("reason", t("future-kind"))])), DecodeErrorKind::UnknownReason);
    assert_eq!(kind_of(obj(vec![("version", JsonValue::Number(3))])), DecodeErrorKind::MissingField);
    assert_eq!(kind_of(obj(vec![("reason", JsonValue::Bool(true))])), DecodeErrorKind::WrongType);
    assert_eq!(
        kind_of(obj(vec![("reason", t("lockfile")), ("version", JsonValue::Number(1 << 40))])),
        DecodeErrorKind::WrongType
    );
    assert_eq!(
        kind_of(obj(vec![("reason", t("unused-patches")), ("unused", t("p"))])),
        DecodeErrorKind::WrongType
    );
    assert_eq!(kind_of(obj(vec![("reason", t("metadata")), ("key", t("k"))])), DecodeErrorKind::MissingField);
}

#[test]
fn first_field_of_a_name_counts_and_others_are_ignored() {
    let v = obj(vec![
        ("extra", JsonValue::Other),
        ("reason", t("lockfile")),
        ("version", JsonValue::Number(2)),
        ("version", JsonValue::Number(9)),
    ]);
    match LockfileContentsMessage::from_json(&v) {
        Ok(LockfileContentsMessage::Lockfile { version }) => assert_eq!(version, Some(2)),
        _ => panic!("expected the lockfile record"),
    }
    assert!(matches!(find_field(entries_of(&v), "version"), Some(JsonValue::Number(2))));
    assert!(find_field(entries_of(&v), "missing").is_none());
}
