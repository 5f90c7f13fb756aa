//! The merged configuration source, as the resolution engine sees it.
//!
//! The source is a `config::Config`: layering files, environment and other
//! stores into it is the business of the `config` crate. The engine only ever
//! asks it for the property behind a field's name, and tells three answers
//! apart: a value, no such property, or a property that cannot be read as a
//! value.

use vstd::prelude::*;
use config::Config;
use config::ConfigError;

verus! {

/// `config::Config`, opaque to the verifier.
#[verifier::external_type_specification]
#[verifier::external_body]
pub struct ExConfig(Config);

/// What a merged source answers when asked for one property.
#[derive(Debug, PartialEq, Eq)]
pub enum SourceLookup {
    /// The property exists; this is its value as text.
    Found(String),
    /// The source has no such property.
    NotFound,
    /// The property exists but yields no value; the text is the source's own
    /// account of the failure.
    Failed(String),
}

/// Mathematical model of a [`SourceLookup`].
pub enum SourceLookupView {
    Found(Seq<char>),
    NotFound,
    Failed(Seq<char>),
}

impl View for SourceLookup {
    type V = SourceLookupView;

    open spec fn view(&self) -> SourceLookupView {
        match self {
            SourceLookup::Found(value) => SourceLookupView::Found(value@),
            SourceLookup::NotFound => SourceLookupView::NotFound,
            SourceLookup::Failed(cause) => SourceLookupView::Failed(cause@),
        }
    }
}

/// The properties of a merged source: each key that the source knows, with
/// the value it yields (`Ok`) or the reason why it yields none (`Err`).
pub type Properties = Map<Seq<char>, Result<Seq<char>, Seq<char>>>;

/// The answer that a source with the given properties gives for `key`.
pub open spec fn lookup_in(properties: Properties, key: Seq<char>) -> SourceLookupView {
    if !properties.dom().contains(key) {
        SourceLookupView::NotFound
    } else {
        match properties[key] {
            Ok(value) => SourceLookupView::Found(value),
            Err(cause) => SourceLookupView::Failed(cause),
        }
    }
}

/// The characters of a plain key: ASCII letters and digits, `_` and `-`.
pub open spec fn is_key_char(c: char) -> bool {
    let n = c as u32;
    (97 <= n <= 122) || (65 <= n <= 90) || (48 <= n <= 57) || n == 95 || n == 45
}

/// A plain key names one top-level property of a source: it is not empty and
/// holds no path syntax (no `.`, no subscript), only key characters.
pub open spec fn is_plain_key(key: Seq<char>) -> bool {
    key.len() > 0 && forall|i: int| 0 <= i < key.len() ==> is_key_char(#[trigger] key[i])
}

/// Whether `c` may occur in a plain key.
pub fn key_char(c: char) -> (ok: bool)
    ensures
        ok == is_key_char(c),
{
    let n: u32 = c as u32;
    (97 <= n && n <= 122) || (65 <= n && n <= 90) || (48 <= n && n <= 57) || n == 95 || n == 45
}

/// Whether `key` is a plain key.
pub fn plain_key(key: &String) -> (ok: bool)
    ensures
        ok == is_plain_key(key@),
{
    let text = key.as_str();
    let len = text.unicode_len();
    if len == 0 {
        return false;
    }
    let mut i: usize = 0;
    while i < len
        invariant
            i <= len,
            len == text@.len(),
            text@ == key@,
            forall|j: int| 0 <= j < i ==> is_key_char(#[trigger] text@[j]),
        decreases len - i,
    {
        if !key_char(text.get_char(i)) {
            return false;
        }
        i += 1;
    }
    true
}

/// The properties that a `config::Config` holds, as `Config::get_str` shows
/// them: a key maps to `Ok` of the text that `get_str` returns for it, or to
/// `Err` of the message of the error it returns; a key is outside the map
/// where `get_str` answers `ConfigError::NotFound`.
pub uninterp spec fn properties(source: Config) -> Properties;

/// Calls `Config::get_str` for a plain key and sorts the answer.
///
/// Trusted: the answer is the one recorded in [`properties`] for that source
/// and key. `get_str` lower-cases the key, parses it as a path, walks the
/// source's cached value tree and renders what it finds as text; for a plain
/// key the path is a single identifier, so no subscript is ever evaluated.
#[verifier::external_body]
pub(crate) fn source_get(source: &Config, key: &String) -> (found: SourceLookup)
    requires
        is_plain_key(key@),
    ensures
        found@ == lookup_in(properties(*source), key@),
{
    match source.get_str(key) {
        Ok(value) => SourceLookup::Found(value),
        Err(ConfigError::NotFound(_)) => SourceLookup::NotFound,
        Err(cause) => SourceLookup::Failed(cause.to_string()),
    }
}

/// Calls `Config::new`.
///
/// Trusted: a new `Config` caches no value at all, so `get_str` answers
/// `NotFound` for every plain key.
#[verifier::external_body]
pub(crate) fn empty_source() -> (source: Config)
    ensures
        forall|key: Seq<char>| is_plain_key(key) ==> !(#[trigger] properties(source).dom().contains(key)),
{
    Config::new()
}

} // verus!
