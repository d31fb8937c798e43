//! Manifest documents: the tree that a `Cargo.toml` or a `package.json` holds, with keyed lookup.
use vstd::prelude::*;
use crate::text::str_eq;

verus! {

/// A parsed manifest value. Tables keep their entries in the order the parser gave them;
/// numbers, booleans, dates and nulls are all `Other`, since no rule reads them.
#[derive(Debug)]
pub enum Doc {
    Str(String),
    Array(Vec<Doc>),
    Table(Vec<(String, Doc)>),
    Other,
}

/// The value of the first entry of `entries` whose key is `key`.
pub open spec fn table_lookup(entries: Seq<(String, Doc)>, key: Seq<char>) -> Option<Doc>
    decreases entries.len(),
{
    if entries.len() == 0 {
        None
    } else if entries[0].0@ == key {
        Some(entries[0].1)
    } else {
        table_lookup(entries.drop_first(), key)
    }
}

/// The value under `key` of a document that may be absent.
pub open spec fn lookup(d: Option<Doc>, key: Seq<char>) -> Option<Doc> {
    match d {
        Some(d) => d.field(key),
        None => None,
    }
}

/// The string that a document holds, where it is present and a string.
pub open spec fn str_of(d: Option<Doc>) -> Option<Seq<char>> {
    match d {
        Some(Doc::Str(s)) => Some(s@),
        _ => None,
    }
}

impl Doc {
    /// The value under `key`, where `self` is a table that has it.
    pub open spec fn field(self, key: Seq<char>) -> Option<Doc> {
        match self {
            Doc::Table(entries) => table_lookup(entries@, key),
            _ => None,
        }
    }

    /// The value under `key`, where `self` is a table that has it.
    pub fn get(&self, key: &str) -> (r: Option<&Doc>)
        ensures
            match r {
                Some(d) => self.field(key@) == Some(*d),
                None => self.field(key@) is None,
            },
    {
        match self {
            Doc::Table(entries) => {
                let mut i: usize = 0;
                proof {
                    assert(entries@.subrange(0, entries@.len() as int) =~= entries@);
                }
                while i < entries.len()
                    invariant
                        i <= entries.len(),
                        self.field(key@) == table_lookup(entries@, key@),
                        table_lookup(entries@, key@) == table_lookup(
                            entries@.subrange(i as int, entries@.len() as int),
                            key@,
                        ),
                    decreases entries.len() - i,
                {
                    proof {
                        assert(entries@.subrange(i as int, entries@.len() as int).drop_first()
                            =~= entries@.subrange(i + 1, entries@.len() as int));
                        assert(entries@.subrange(i as int, entries@.len() as int)[0] == entries@[i as int]);
                    }
                    if str_eq(entries[i].0.as_str(), key) {
                        return Some(&entries[i].1);
                    }
                    i = i + 1;
                }
                None
            },
            _ => None,
        }
    }

    /// The string that `self` holds, where it is one.
    pub fn as_str(&self) -> (r: Option<&String>)
        ensures
            match r {
                Some(s) => str_of(Some(*self)) == Some(s@),
                None => str_of(Some(*self)) is None,
            },
    {
        match self {
            Doc::Str(s) => Some(s),
            _ => None,
        }
    }
}

/// The document that a TOML text holds, or `None` where the text is not valid TOML.
pub uninterp spec fn toml_doc(text: Seq<char>) -> Option<Doc>;

/// The document that a JSON text holds, or `None` where the text is not valid JSON.
pub uninterp spec fn json_doc(text: Seq<char>) -> Option<Doc>;

/// The outside JSON value type, carried through the parsers below.
#[verifier::external_type_specification]
#[verifier::external_body]
pub struct ExJsonValue(serde_json::Value);

/// Relies on serde_json::Value's variants: strings, arrays and objects move into the matching
/// variant of `Doc` (object entries in the order the map yields them); every other value is `Other`.
#[verifier::external_body]
fn doc_from_value(v: serde_json::Value) -> Doc {
    match v {
        serde_json::Value::String(s) => Doc::Str(s),
        serde_json::Value::Array(a) => Doc::Array(a.into_iter().map(doc_from_value).collect()),
        serde_json::Value::Object(m) => Doc::Table(
            m.into_iter().map(|(k, v)| (k, doc_from_value(v))).collect(),
        ),
        _ => Doc::Other,
    }
}

/// Relies on toml::from_str, here deserializing into a serde_json::Value: it parses the
/// text, and the document depends on the text alone.
#[verifier::external_body]
pub fn parse_toml(text: &str) -> (r: Option<Doc>)
    ensures
        r == toml_doc(text@),
{
    toml::from_str::<serde_json::Value>(text).ok().map(doc_from_value)
}

/// Relies on serde_json::from_str: it parses the text, and the document depends on the text
/// alone.
#[verifier::external_body]
pub fn parse_json(text: &str) -> (r: Option<Doc>)
    ensures
        r == json_doc(text@),
{
    serde_json::from_str::<serde_json::Value>(text).ok().map(doc_from_value)
}

} // verus!
