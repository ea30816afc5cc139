//! Plain values of the D-Bus variant vocabulary that the portal reads and writes.
use vstd::prelude::*;

verus! {

/// A D-Bus variant value, as far as the portal logic reads or writes one.
///
/// Array elements and dictionary values are held through one variant layer,
/// as D-Bus maps and vectors are read: an `a{su}` and an `a{sv}` of `u32`
/// variants are the same `Dict`, and an `av` of vardicts is the same `Array`
/// as an `aa{sv}`.
#[derive(Debug, PartialEq)]
pub enum Value {
    Bool(bool),
    U32(u32),
    I32(i32),
    Str(String),
    /// A structure whose fields are variants.
    Structure(Vec<Value>),
    /// An array (`av`, or `aa{sv}` when every element is a dictionary).
    Array(Vec<Value>),
    /// A string-keyed dictionary (`a{sv}`, or `a{su}` and the like).
    /// When a key occurs more than once, the last entry is the one that counts.
    Dict(Vec<(String, Value)>),
    /// Any other D-Bus type, a variant held in a variant among them.
    Other,
}

/// An options or results vardict (`a{sv}`), in insertion order.
/// When a key occurs more than once, the last entry is the one that counts.
pub type Options = Vec<(String, Value)>;

/// The value stored under `key`: the last entry with that key.
pub open spec fn lookup(entries: Seq<(String, Value)>, key: Seq<char>) -> Option<Value>
    decreases entries.len(),
{
    if entries.len() == 0 {
        None
    } else if entries.last().0@ == key {
        Some(entries.last().1)
    } else {
        lookup(entries.drop_last(), key)
    }
}

pub open spec fn has_key(entries: Seq<(String, Value)>, key: Seq<char>) -> bool {
    lookup(entries, key) is Some
}

pub open spec fn lookup_u32(entries: Seq<(String, Value)>, key: Seq<char>) -> Option<u32> {
    match lookup(entries, key) {
        Some(Value::U32(n)) => Some(n),
        _ => None,
    }
}

pub open spec fn lookup_bool(entries: Seq<(String, Value)>, key: Seq<char>) -> Option<bool> {
    match lookup(entries, key) {
        Some(Value::Bool(b)) => Some(b),
        _ => None,
    }
}

pub open spec fn lookup_str(entries: Seq<(String, Value)>, key: Seq<char>) -> Option<Seq<char>> {
    match lookup(entries, key) {
        Some(Value::Str(s)) => Some(s@),
        _ => None,
    }
}

/// The keys of a vardict, in entry order.
pub open spec fn keys(entries: Seq<(String, Value)>) -> Seq<Seq<char>> {
    entries.map_values(|e: (String, Value)| e.0@)
}

/// The view of an optional string.
pub open spec fn opt_str_view(s: Option<String>) -> Option<Seq<char>> {
    match s {
        Some(s) => Some(s@),
        None => None,
    }
}

pub proof fn lemma_lookup_push(entries: Seq<(String, Value)>, e: (String, Value))
    ensures
        forall|key: Seq<char>|
            #[trigger] lookup(entries.push(e), key) == if e.0@ == key {
                Some(e.1)
            } else {
                lookup(entries, key)
            },
{
    assert(entries.push(e).drop_last() =~= entries);
}

/// A key is present exactly when some entry carries it.
pub proof fn lemma_has_key_index(entries: Seq<(String, Value)>, key: Seq<char>)
    ensures
        has_key(entries, key) <==> exists|i: int| 0 <= i < entries.len() && (#[trigger] entries[i]).0@ == key,
    decreases entries.len(),
{
    if entries.len() > 0 {
        let prev = entries.drop_last();
        lemma_has_key_index(prev, key);
        if has_key(prev, key) {
            let i = choose|i: int| 0 <= i < prev.len() && (#[trigger] prev[i]).0@ == key;
            assert(entries[i] == prev[i]);
        }
        if exists|i: int| 0 <= i < entries.len() && (#[trigger] entries[i]).0@ == key {
            let i = choose|i: int| 0 <= i < entries.len() && (#[trigger] entries[i]).0@ == key;
            if i < entries.len() - 1 {
                assert(prev[i] == entries[i]);
            }
        }
    }
}

/// Whether two strings hold the same characters.
pub fn str_eq(a: &str, b: &str) -> (r: bool)
    ensures
        r == (a@ == b@),
{
    let x = a.to_owned();
    let y = b.to_owned();
    x == y
}

/// The value stored under `key` in a vardict.
pub fn get<'a>(entries: &'a Vec<(String, Value)>, key: &str) -> (r: Option<&'a Value>)
    ensures
        r is None <==> lookup(entries@, key@) is None,
        r matches Some(v) ==> lookup(entries@, key@) == Some(*v),
{
    let mut i = entries.len();
    assert(entries@.take(i as int) =~= entries@);
    while i > 0
        invariant
            i <= entries.len(),
            lookup(entries@, key@) == lookup(entries@.take(i as int), key@),
        decreases i,
    {
        i -= 1;
        assert(entries@.take(i + 1).drop_last() =~= entries@.take(i as int));
        if str_eq(entries[i].0.as_str(), key) {
            return Some(&entries[i].1);
        }
    }
    None
}

/// A string value.
pub fn str_value(s: &str) -> (v: Value)
    ensures
        v matches Value::Str(t) && t@ == s@,
{
    Value::Str(s.to_owned())
}

/// A vardict entry whose key is `key`.
pub fn entry(key: &str, v: Value) -> (e: (String, Value))
    ensures
        e.0@ == key@,
        e.1 == v,
{
    (key.to_owned(), v)
}

} // verus!
