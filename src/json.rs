//! JSON text as the library sees it: a value is kept as its text, and the
//! outside parser splits objects, arrays and scalars apart on demand.

use vstd::prelude::*;

verus! {

/// The entries of a JSON object, each value kept as its JSON text.
pub type EntriesV = Seq<(Seq<char>, Seq<char>)>;

/// What serde_json reads from `s` as an object, as (key, value text) pairs in
/// the map's order; `None` where `s` is no object.
pub uninterp spec fn object_entries_of(s: Seq<char>) -> Option<EntriesV>;

/// What serde_json reads from `s` as an array, as the text of each element.
pub uninterp spec fn array_items_of(s: Seq<char>) -> Option<Seq<Seq<char>>>;

/// What serde_json reads from `s` as a string.
pub uninterp spec fn string_of(s: Seq<char>) -> Option<Seq<char>>;

/// What serde_json reads from `s` as an optional string (`null` is `Some(None)`).
pub uninterp spec fn opt_string_of(s: Seq<char>) -> Option<Option<Seq<char>>>;

/// What serde_json reads from `s` as an unsigned 64-bit integer.
pub uninterp spec fn u64_of(s: Seq<char>) -> Option<u64>;

/// The JSON text that serde_json writes for the string `s`.
pub uninterp spec fn quoted_of(s: Seq<char>) -> Seq<char>;

/// The model of a list of (key, value text) pairs.
pub open spec fn entries_view(v: Seq<(String, String)>) -> EntriesV {
    v.map_values(|p: (String, String)| (p.0@, p.1@))
}

/// The value of the first entry whose key is `k`.
pub open spec fn lookup(e: EntriesV, k: Seq<char>) -> Option<Seq<char>>
    decreases e.len(),
{
    if e.len() == 0 {
        None
    } else if e[0].0 == k {
        Some(e[0].1)
    } else {
        lookup(e.drop_first(), k)
    }
}

/// Relies on serde_json::from_str into a `Map<String, Value>`, each value
/// written back with `Value::to_string`: the entries depend on the text alone.
#[verifier::external_body]
pub(crate) fn parse_object(text: &str) -> (r: Option<Vec<(String, String)>>)
    ensures
        match r {
            Some(v) => object_entries_of(text@) == Some(entries_view(v@)),
            None => object_entries_of(text@) is None,
        },
{
    serde_json::from_str::<serde_json::Map<String, serde_json::Value>>(text)
        .ok()
        .map(|m| m.into_iter().map(|(k, v)| (k, v.to_string())).collect())
}

/// Relies on serde_json::from_str into a `Vec<Value>`, each element written
/// back with `Value::to_string`: the items depend on the text alone.
#[verifier::external_body]
pub(crate) fn parse_array(text: &str) -> (r: Option<Vec<String>>)
    ensures
        match r {
            Some(v) => array_items_of(text@) == Some(v@.map_values(|s: String| s@)),
            None => array_items_of(text@) is None,
        },
{
    serde_json::from_str::<Vec<serde_json::Value>>(text)
        .ok()
        .map(|a| a.into_iter().map(|v| v.to_string()).collect())
}

/// Relies on serde_json::from_str into a `String`.
#[verifier::external_body]
pub(crate) fn parse_string(text: &str) -> (r: Option<String>)
    ensures
        match r {
            Some(s) => string_of(text@) == Some(s@),
            None => string_of(text@) is None,
        },
{
    serde_json::from_str::<String>(text).ok()
}

/// Relies on serde_json::from_str into an `Option<String>`.
#[verifier::external_body]
pub(crate) fn parse_opt_string(text: &str) -> (r: Option<Option<String>>)
    ensures
        match r {
            Some(Some(s)) => opt_string_of(text@) == Some(Some(s@)),
            Some(None) => opt_string_of(text@) == Some(None::<Seq<char>>),
            None => opt_string_of(text@) is None,
        },
{
    serde_json::from_str::<Option<String>>(text).ok()
}

/// Relies on serde_json::from_str into a `u64`.
#[verifier::external_body]
pub(crate) fn parse_u64(text: &str) -> (r: Option<u64>)
    ensures
        r == u64_of(text@),
{
    serde_json::from_str::<u64>(text).ok()
}

/// Relies on serde_json::to_string on a `&str`, which writes a JSON string
/// literal and cannot fail.
#[verifier::external_body]
pub(crate) fn quote(s: &str) -> (r: String)
    ensures
        r@ == quoted_of(s@),
{
    serde_json::to_string(s).unwrap_or_default()
}

/// Finds the value of the first entry whose key is `k`.
pub fn find<'a>(entries: &'a Vec<(String, String)>, k: &str) -> (r: Option<&'a String>)
    ensures
        match r {
            Some(v) => lookup(entries_view(entries@), k@) == Some(v@),
            None => lookup(entries_view(entries@), k@) is None,
        },
{
    let mut i: usize = 0;
    assert(entries_view(entries@).skip(0) =~= entries_view(entries@));
    while i < entries.len()
        invariant
            i <= entries.len(),
            lookup(entries_view(entries@), k@) == lookup(entries_view(entries@).skip(i as int), k@),
        decreases entries.len() - i,
    {
        let ghost e = entries_view(entries@).skip(i as int);
        assert(e.drop_first() =~= entries_view(entries@).skip(i + 1));
        if str_eq(entries[i].0.as_str(), k) {
            return Some(&entries[i].1);
        }
        i = i + 1;
    }
    None
}

/// Whether two strings hold the same characters.
pub fn str_eq(a: &str, b: &str) -> (r: bool)
    ensures
        r == (a@ == b@),
{
    a.to_owned() == b.to_owned()
}

} // verus!
