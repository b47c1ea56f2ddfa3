//! The lockfile-contents records and their JSON form.
//!
//! Each record is one JSON object whose `reason` field names its kind
//! (`lockfile`, `locked-package`, `metadata`, `unused-patches`); the other
//! fields of the kind stand beside it, but for an unused patch, which stands
//! as an object under `unused`. Fields that a kind does not read are ignored;
//! an optional field may be absent or `null`.
use vstd::prelude::*;

use crate::json::{find_field, lookup, JsonValue};
use crate::path::same_text;

verus! {

/// The words that the JSON form uses as field names and kinds.
#[derive(Clone, Copy, Debug, PartialEq, Eq, Structural)]
pub enum Word {
    Reason,
    Lockfile,
    LockedPackage,
    MetadataKind,
    UnusedPatches,
    Version,
    Name,
    Source,
    Checksum,
    Key,
    Value,
    Unused,
}

/// The text of a word.
pub open spec fn word(w: Word) -> Seq<char> {
    match w {
        Word::Reason => seq!['r', 'e', 'a', 's', 'o', 'n'],
        Word::Lockfile => seq!['l', 'o', 'c', 'k', 'f', 'i', 'l', 'e'],
        Word::LockedPackage => seq![
            'l', 'o', 'c', 'k', 'e', 'd', '-', 'p', 'a', 'c', 'k', 'a', 'g', 'e',
        ],
        Word::MetadataKind => seq!['m', 'e', 't', 'a', 'd', 'a', 't', 'a'],
        Word::UnusedPatches => seq![
            'u', 'n', 'u', 's', 'e', 'd', '-', 'p', 'a', 't', 'c', 'h', 'e', 's',
        ],
        Word::Version => seq!['v', 'e', 'r', 's', 'i', 'o', 'n'],
        Word::Name => seq!['n', 'a', 'm', 'e'],
        Word::Source => seq!['s', 'o', 'u', 'r', 'c', 'e'],
        Word::Checksum => seq!['c', 'h', 'e', 'c', 'k', 's', 'u', 'm'],
        Word::Key => seq!['k', 'e', 'y'],
        Word::Value => seq!['v', 'a', 'l', 'u', 'e'],
        Word::Unused => seq!['u', 'n', 'u', 's', 'e', 'd'],
    }
}

/// The text of a word.
pub fn word_text(w: Word) -> (r: &'static str)
    ensures
        r@ == word(w),
{
    match w {
        Word::Reason => {
            proof {
                reveal_strlit("reason");
            }
            let r = "reason";
            assert(r@ =~= word(w));
            r
        },
        Word::Lockfile => {
            proof {
                reveal_strlit("lockfile");
            }
            let r = "lockfile";
            assert(r@ =~= word(w));
            r
        },
        Word::LockedPackage => {
            proof {
                reveal_strlit("locked-package");
            }
            let r = "locked-package";
            assert(r@ =~= word(w));
            r
        },
        Word::MetadataKind => {
            proof {
                reveal_strlit("metadata");
            }
            let r = "metadata";
            assert(r@ =~= word(w));
            r
        },
        Word::UnusedPatches => {
            proof {
                reveal_strlit("unused-patches");
            }
            let r = "unused-patches";
            assert(r@ =~= word(w));
            r
        },
        Word::Version => {
            proof {
                reveal_strlit("version");
            }
            let r = "version";
            assert(r@ =~= word(w));
            r
        },
        Word::Name => {
            proof {
                reveal_strlit("name");
            }
            let r = "name";
            assert(r@ =~= word(w));
            r
        },
        Word::Source => {
            proof {
                reveal_strlit("source");
            }
            let r = "source";
            assert(r@ =~= word(w));
            r
        },
        Word::Checksum => {
            proof {
                reveal_strlit("checksum");
            }
            let r = "checksum";
            assert(r@ =~= word(w));
            r
        },
        Word::Key => {
            proof {
                reveal_strlit("key");
            }
            let r = "key";
            assert(r@ =~= word(w));
            r
        },
        Word::Value => {
            proof {
                reveal_strlit("value");
            }
            let r = "value";
            assert(r@ =~= word(w));
            r
        },
        Word::Unused => {
            proof {
                reveal_strlit("unused");
            }
            let r = "unused";
            assert(r@ =~= word(w));
            r
        },
    }
}

/// A package pinned by the lockfile.
pub struct NormalizedDependency {
    pub name: String,
    pub version: Option<String>,
    pub source: Option<String>,
    pub checksum: Option<String>,
}

/// One entry of the lockfile's metadata table.
pub struct Metadata {
    pub key: String,
    pub value: String,
}

/// A patch that the lockfile records as unused.
pub struct NormalizedPatch {
    pub name: String,
    pub version: Option<String>,
    pub source: Option<String>,
}

/// Messages used to output the contents of a lockfile.
pub enum LockfileContentsMessage {
    Lockfile { version: Option<u32> },
    LockedPackage { package: NormalizedDependency },
    Metadata { metadata: Metadata },
    UnusedPatches { unused: NormalizedPatch },
}

/// Why a value is no record.
#[derive(Clone, Copy, Debug, PartialEq, Eq, Structural)]
pub enum DecodeErrorKind {
    /// The value is no JSON object.
    NotAnObject,
    /// The `reason` names no known kind of record.
    UnknownReason,
    /// A required field is absent.
    MissingField,
    /// A field holds a value of the wrong shape.
    WrongType,
}

/// The text under `key`, which must be there.
pub open spec fn spec_text_field(entries: Seq<(String, JsonValue)>, w: Word) -> Result<
    String,
    DecodeErrorKind,
> {
    match lookup(entries, word(w)) {
        Some(JsonValue::Text(s)) => Ok(s),
        Some(_) => Err(DecodeErrorKind::WrongType),
        None => Err(DecodeErrorKind::MissingField),
    }
}

/// The text under `key`, if it is there and not `null`.
pub open spec fn spec_opt_text_field(entries: Seq<(String, JsonValue)>, w: Word) -> Result<
    Option<String>,
    DecodeErrorKind,
> {
    match lookup(entries, word(w)) {
        Some(JsonValue::Text(s)) => Ok(Some(s)),
        Some(JsonValue::Null) => Ok(None),
        Some(_) => Err(DecodeErrorKind::WrongType),
        None => Ok(None),
    }
}

/// The lockfile version, if it is there and not `null`.
pub open spec fn spec_version_field(entries: Seq<(String, JsonValue)>) -> Result<
    Option<u32>,
    DecodeErrorKind,
> {
    match lookup(entries, word(Word::Version)) {
        Some(JsonValue::Number(n)) => if n <= u32::MAX {
            Ok(Some(n as u32))
        } else {
            Err(DecodeErrorKind::WrongType)
        },
        Some(JsonValue::Null) => Ok(None),
        Some(_) => Err(DecodeErrorKind::WrongType),
        None => Ok(None),
    }
}

fn text_field(entries: &Vec<(String, JsonValue)>, w: Word) -> (r: Result<String, DecodeErrorKind>)
    ensures
        r == spec_text_field(entries@, w),
{
    match find_field(entries, word_text(w)) {
        Some(JsonValue::Text(s)) => Ok(s.clone()),
        Some(_) => Err(DecodeErrorKind::WrongType),
        None => Err(DecodeErrorKind::MissingField),
    }
}

fn opt_text_field(entries: &Vec<(String, JsonValue)>, w: Word) -> (r: Result<
    Option<String>,
    DecodeErrorKind,
>)
    ensures
        r == spec_opt_text_field(entries@, w),
{
    match find_field(entries, word_text(w)) {
        Some(JsonValue::Text(s)) => Ok(Some(s.clone())),
        Some(JsonValue::Null) => Ok(None),
        Some(_) => Err(DecodeErrorKind::WrongType),
        None => Ok(None),
    }
}

fn version_field(entries: &Vec<(String, JsonValue)>) -> (r: Result<Option<u32>, DecodeErrorKind>)
    ensures
        r == spec_version_field(entries@),
{
    match find_field(entries, word_text(Word::Version)) {
        Some(JsonValue::Number(n)) => if *n <= u32::MAX as u64 {
            Ok(Some(*n as u32))
        } else {
            Err(DecodeErrorKind::WrongType)
        },
        Some(JsonValue::Null) => Ok(None),
        Some(_) => Err(DecodeErrorKind::WrongType),
        None => Ok(None),
    }
}

/// The package that the fields describe.
pub open spec fn decoded_package(entries: Seq<(String, JsonValue)>) -> Result<
    NormalizedDependency,
    DecodeErrorKind,
> {
    match spec_text_field(entries, Word::Name) {
        Err(e) => Err(e),
        Ok(name) => match spec_opt_text_field(entries, Word::Version) {
            Err(e) => Err(e),
            Ok(version) => match spec_opt_text_field(entries, Word::Source) {
                Err(e) => Err(e),
                Ok(source) => match spec_opt_text_field(entries, Word::Checksum) {
                    Err(e) => Err(e),
                    Ok(checksum) => Ok(NormalizedDependency { name, version, source, checksum }),
                },
            },
        },
    }
}

/// The unused patch that the fields describe.
pub open spec fn decoded_patch(entries: Seq<(String, JsonValue)>) -> Result<
    NormalizedPatch,
    DecodeErrorKind,
> {
    match spec_text_field(entries, Word::Name) {
        Err(e) => Err(e),
        Ok(name) => match spec_opt_text_field(entries, Word::Version) {
            Err(e) => Err(e),
            Ok(version) => match spec_opt_text_field(entries, Word::Source) {
                Err(e) => Err(e),
                Ok(source) => Ok(NormalizedPatch { name, version, source }),
            },
        },
    }
}

/// The metadata entry that the fields describe.
pub open spec fn decoded_metadata(entries: Seq<(String, JsonValue)>) -> Result<
    Metadata,
    DecodeErrorKind,
> {
    match spec_text_field(entries, Word::Key) {
        Err(e) => Err(e),
        Ok(key) => match spec_text_field(entries, Word::Value) {
            Err(e) => Err(e),
            Ok(value) => Ok(Metadata { key, value }),
        },
    }
}

/// The record of the kind `reason` that the fields describe.
pub open spec fn decoded_kind(entries: Seq<(String, JsonValue)>, reason: Seq<char>) -> Result<
    LockfileContentsMessage,
    DecodeErrorKind,
> {
    if reason == word(Word::Lockfile) {
        match spec_version_field(entries) {
            Err(e) => Err(e),
            Ok(version) => Ok(LockfileContentsMessage::Lockfile { version }),
        }
    } else if reason == word(Word::LockedPackage) {
        match decoded_package(entries) {
            Err(e) => Err(e),
            Ok(package) => Ok(LockfileContentsMessage::LockedPackage { package }),
        }
    } else if reason == word(Word::MetadataKind) {
        match decoded_metadata(entries) {
            Err(e) => Err(e),
            Ok(metadata) => Ok(LockfileContentsMessage::Metadata { metadata }),
        }
    } else if reason == word(Word::UnusedPatches) {
        match lookup(entries, word(Word::Unused)) {
            Some(JsonValue::Object(inner)) => match decoded_patch(inner@) {
                Err(e) => Err(e),
                Ok(unused) => Ok(LockfileContentsMessage::UnusedPatches { unused }),
            },
            Some(_) => Err(DecodeErrorKind::WrongType),
            None => Err(DecodeErrorKind::MissingField),
        }
    } else {
        Err(DecodeErrorKind::UnknownReason)
    }
}

/// The record that a JSON value holds, or why it holds none.
pub open spec fn decoded(v: JsonValue) -> Result<LockfileContentsMessage, DecodeErrorKind> {
    match v {
        JsonValue::Object(entries) => match spec_text_field(entries@, Word::Reason) {
            Err(e) => Err(e),
            Ok(reason) => decoded_kind(entries@, reason@),
        },
        _ => Err(DecodeErrorKind::NotAnObject),
    }
}

fn package_from(entries: &Vec<(String, JsonValue)>) -> (r: Result<NormalizedDependency, DecodeErrorKind>)
    ensures
        r == decoded_package(entries@),
{
    let name = match text_field(entries, Word::Name) {
        Ok(x) => x,
        Err(e) => return Err(e),
    };
    let version = match opt_text_field(entries, Word::Version) {
        Ok(x) => x,
        Err(e) => return Err(e),
    };
    let source = match opt_text_field(entries, Word::Source) {
        Ok(x) => x,
        Err(e) => return Err(e),
    };
    let checksum = match opt_text_field(entries, Word::Checksum) {
        Ok(x) => x,
        Err(e) => return Err(e),
    };
    Ok(NormalizedDependency { name, version, source, checksum })
}

fn patch_from(entries: &Vec<(String, JsonValue)>) -> (r: Result<NormalizedPatch, DecodeErrorKind>)
    ensures
        r == decoded_patch(entries@),
{
    let name = match text_field(entries, Word::Name) {
        Ok(x) => x,
        Err(e) => return Err(e),
    };
    let version = match opt_text_field(entries, Word::Version) {
        Ok(x) => x,
        Err(e) => return Err(e),
    };
    let source = match opt_text_field(entries, Word::Source) {
        Ok(x) => x,
        Err(e) => return Err(e),
    };
    Ok(NormalizedPatch { name, version, source })
}

fn metadata_from(entries: &Vec<(String, JsonValue)>) -> (r: Result<Metadata, DecodeErrorKind>)
    ensures
        r == decoded_metadata(entries@),
{
    let key = match text_field(entries, Word::Key) {
        Ok(x) => x,
        Err(e) => return Err(e),
    };
    let value = match text_field(entries, Word::Value) {
        Ok(x) => x,
        Err(e) => return Err(e),
    };
    Ok(Metadata { key, value })
}

impl LockfileContentsMessage {
    /// The record that a JSON value holds, or why it holds none.
    pub fn from_json(v: &JsonValue) -> (r: Result<LockfileContentsMessage, DecodeErrorKind>)
        ensures
            r == decoded(*v),
    {
        let entries = match v {
            JsonValue::Object(entries) => entries,
            _ => return Err(DecodeErrorKind::NotAnObject),
        };
        let reason = match text_field(entries, Word::Reason) {
            Ok(x) => x,
            Err(e) => return Err(e),
        };
        if same_text(reason.as_str(), word_text(Word::Lockfile)) {
            match version_field(entries) {
                Ok(version) => Ok(LockfileContentsMessage::Lockfile { version }),
                Err(e) => Err(e),
            }
        } else if same_text(reason.as_str(), word_text(Word::LockedPackage)) {
            match package_from(entries) {
                Ok(package) => Ok(LockfileContentsMessage::LockedPackage { package }),
                Err(e) => Err(e),
            }
        } else if same_text(reason.as_str(), word_text(Word::MetadataKind)) {
            match metadata_from(entries) {
                Ok(metadata) => Ok(LockfileContentsMessage::Metadata { metadata }),
                Err(e) => Err(e),
            }
        } else if same_text(reason.as_str(), word_text(Word::UnusedPatches)) {
            match find_field(entries, word_text(Word::Unused)) {
                Some(JsonValue::Object(inner)) => match patch_from(inner) {
                    Ok(unused) => Ok(LockfileContentsMessage::UnusedPatches { unused }),
                    Err(e) => Err(e),
                },
                Some(_) => Err(DecodeErrorKind::WrongType),
                None => Err(DecodeErrorKind::MissingField),
            }
        } else {
            Err(DecodeErrorKind::UnknownReason)
        }
    }
}

/// The JSON form of an optional text: the text, or `null`.
pub open spec fn opt_text_json(o: Option<String>) -> JsonValue {
    match o {
        Some(s) => JsonValue::Text(s),
        None => JsonValue::Null,
    }
}

/// The JSON form of an optional lockfile version: the number, or `null`.
pub open spec fn version_json(o: Option<u32>) -> JsonValue {
    match o {
        Some(n) => JsonValue::Number(n as u64),
        None => JsonValue::Null,
    }
}

/// The entry is named `w` and holds `v`.
pub open spec fn entry_is(e: (String, JsonValue), w: Word, v: JsonValue) -> bool {
    e.0@ == word(w) && e.1 == v
}

/// The entry is the `reason` that names kind `w`.
pub open spec fn reason_is(e: (String, JsonValue), w: Word) -> bool {
    e.0@ == word(Word::Reason) && (e.1 matches JsonValue::Text(s) && s@ == word(w))
}

/// The entries of an unused patch's object.
pub open spec fn patch_entries(es: Seq<(String, JsonValue)>, p: NormalizedPatch) -> bool {
    &&& es.len() == 3
    &&& entry_is(es[0], Word::Name, JsonValue::Text(p.name))
    &&& entry_is(es[1], Word::Version, opt_text_json(p.version))
    &&& entry_is(es[2], Word::Source, opt_text_json(p.source))
}

/// `v` is the JSON form of `m`: the `reason` first, then the kind's fields in
/// the order of their declaration.
pub open spec fn encodes(m: LockfileContentsMessage, v: JsonValue) -> bool {
    match v {
        JsonValue::Object(entries) => {
            let es = entries@;
            match m {
                LockfileContentsMessage::Lockfile { version } => {
                    &&& es.len() == 2
                    &&& reason_is(es[0], Word::Lockfile)
                    &&& entry_is(es[1], Word::Version, version_json(version))
                },
                LockfileContentsMessage::LockedPackage { package } => {
                    &&& es.len() == 5
                    &&& reason_is(es[0], Word::LockedPackage)
                    &&& entry_is(es[1], Word::Name, JsonValue::Text(package.name))
                    &&& entry_is(es[2], Word::Version, opt_text_json(package.version))
                    &&& entry_is(es[3], Word::Source, opt_text_json(package.source))
                    &&& entry_is(es[4], Word::Checksum, opt_text_json(package.checksum))
                },
                LockfileContentsMessage::Metadata { metadata } => {
                    &&& es.len() == 3
                    &&& reason_is(es[0], Word::MetadataKind)
                    &&& entry_is(es[1], Word::Key, JsonValue::Text(metadata.key))
                    &&& entry_is(es[2], Word::Value, JsonValue::Text(metadata.value))
                },
                LockfileContentsMessage::UnusedPatches { unused } => {
                    &&& es.len() == 2
                    &&& reason_is(es[0], Word::UnusedPatches)
                    &&& es[1].0@ == word(Word::Unused)
                    &&& es[1].1 matches JsonValue::Object(inner) && patch_entries(inner@, unused)
                },
            }
        },
        _ => false,
    }
}

fn word_string(w: Word) -> (r: String)
    ensures
        r@ == word(w),
{
    String::from_str(word_text(w))
}

fn opt_text_to_json(o: &Option<String>) -> (r: JsonValue)
    ensures
        r == opt_text_json(*o),
{
    match o {
        Some(s) => JsonValue::Text(s.clone()),
        None => JsonValue::Null,
    }
}

fn reason_entry(w: Word) -> (r: (String, JsonValue))
    ensures
        reason_is(r, w),
{
    (word_string(Word::Reason), JsonValue::Text(word_string(w)))
}

impl LockfileContentsMessage {
    /// The JSON form of this record.
    pub fn to_json(&self) -> (r: JsonValue)
        ensures
            encodes(*self, r),
    {
        let mut es: Vec<(String, JsonValue)> = Vec::new();
        match self {
            LockfileContentsMessage::Lockfile { version } => {
                es.push(reason_entry(Word::Lockfile));
                let v = match version {
                    Some(n) => JsonValue::Number(*n as u64),
                    None => JsonValue::Null,
                };
                es.push((word_string(Word::Version), v));
            },
            LockfileContentsMessage::LockedPackage { package } => {
                es.push(reason_entry(Word::LockedPackage));
                es.push((word_string(Word::Name), JsonValue::Text(package.name.clone())));
                es.push((word_string(Word::Version), opt_text_to_json(&package.version)));
                es.push((word_string(Word::Source), opt_text_to_json(&package.source)));
                es.push((word_string(Word::Checksum), opt_text_to_json(&package.checksum)));
            },
            LockfileContentsMessage::Metadata { metadata } => {
                es.push(reason_entry(Word::MetadataKind));
                es.push((word_string(Word::Key), JsonValue::Text(metadata.key.clone())));
                es.push((word_string(Word::Value), JsonValue::Text(metadata.value.clone())));
            },
            LockfileContentsMessage::UnusedPatches { unused } => {
                es.push(reason_entry(Word::UnusedPatches));
                let mut inner: Vec<(String, JsonValue)> = Vec::new();
                inner.push((word_string(Word::Name), JsonValue::Text(unused.name.clone())));
                inner.push((word_string(Word::Version), opt_text_to_json(&unused.version)));
                inner.push((word_string(Word::Source), opt_text_to_json(&unused.source)));
                es.push((word_string(Word::Unused), JsonValue::Object(inner)));
            },
        }
        JsonValue::Object(es)
    }
}

/// The first entry named `key` is the one at `i`.
pub proof fn lemma_lookup_at(es: Seq<(String, JsonValue)>, key: Seq<char>, i: int)
    requires
        0 <= i < es.len(),
        es[i].0@ == key,
        forall|j: int| 0 <= j < i ==> es[j].0@ != key,
    ensures
        lookup(es, key) == Some(es[i].1),
    decreases i,
{
    if i > 0 {
        assert forall|j: int| 0 <= j < i - 1 implies es.drop_first()[j].0@ != key by {
            assert(es.drop_first()[j] == es[j + 1]);
        }
        lemma_lookup_at(es.drop_first(), key, i - 1);
    }
}

/// Decoding the JSON form of any record gives back that record, field for field.
pub proof fn lemma_round_trip(m: LockfileContentsMessage, v: JsonValue)
    requires
        encodes(m, v),
    ensures
        decoded(v) == Ok::<_, DecodeErrorKind>(m),
{
    let es = v->Object_0@;
    lemma_lookup_at(es, word(Word::Reason), 0);
    match m {
        LockfileContentsMessage::Lockfile { version } => {
            lemma_lookup_at(es, word(Word::Version), 1);
        },
        LockfileContentsMessage::LockedPackage { package } => {
            lemma_lookup_at(es, word(Word::Name), 1);
            lemma_lookup_at(es, word(Word::Version), 2);
            lemma_lookup_at(es, word(Word::Source), 3);
            lemma_lookup_at(es, word(Word::Checksum), 4);
        },
        LockfileContentsMessage::Metadata { metadata } => {
            lemma_lookup_at(es, word(Word::Key), 1);
            lemma_lookup_at(es, word(Word::Value), 2);
        },
        LockfileContentsMessage::UnusedPatches { unused } => {
            lemma_lookup_at(es, word(Word::Unused), 1);
            let inner = es[1].1->Object_0@;
            lemma_lookup_at(inner, word(Word::Name), 0);
            lemma_lookup_at(inner, word(Word::Version), 1);
            lemma_lookup_at(inner, word(Word::Source), 2);
        },
    }
}

} // verus!
