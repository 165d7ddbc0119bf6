//! D-Bus variant values as plain data, and the lookups the protocol adapters make on a
//! `a{sv}` vardict (notification hints, GNotification maps, button rows).
use vstd::prelude::*;
use crate::text::{str_eq, opt_view};

verus! {

/// A D-Bus value. `Double` holds the IEEE-754 bits of the number.
#[derive(Debug, PartialEq)]
pub enum Variant {
    /// `y`
    U8(u8),
    /// `b`
    Bool(bool),
    /// `n`
    I16(i16),
    /// `q`
    U16(u16),
    /// `i`
    I32(i32),
    /// `u`
    U32(u32),
    /// `x`
    I64(i64),
    /// `t`
    U64(u64),
    /// `d`, as the bits of the IEEE-754 double.
    Double(u64),
    /// `s`
    Str(String),
    /// `g`
    Signature(String),
    /// `o`
    ObjectPath(String),
    /// `v`: a value wrapped in a variant.
    Value(Box<Variant>),
    /// `a…`: the signature of the element type, then the elements.
    Array(String, Vec<Variant>),
    /// `a{…}`: the signatures of the key and value types, then the entries.
    Dict(String, String, Vec<(Variant, Variant)>),
    /// `(…)`: the fields of a structure.
    Structure(Vec<Variant>),
    /// `h`: a file descriptor number.
    Fd(i32),
}

/// Two variants hold the same value: equal scalars and strings, and containers whose elements
/// hold the same values pairwise.
pub open spec fn same_value(a: Variant, b: Variant) -> bool
    decreases a,
{
    match a {
        Variant::Value(x) => match b {
            Variant::Value(y) => same_value(*x, *y),
            _ => false,
        },
        Variant::Array(sx, x) => match b {
            Variant::Array(sy, y) => sx@ == sy@ && same_values(x@, y@),
            _ => false,
        },
        Variant::Structure(x) => match b {
            Variant::Structure(y) => same_values(x@, y@),
            _ => false,
        },
        Variant::Dict(kx, vx, x) => match b {
            Variant::Dict(ky, vy, y) => kx@ == ky@ && vx@ == vy@ && same_entries(x@, y@),
            _ => false,
        },
        _ => a == b,
    }
}

/// Two sequences of variants hold the same values pairwise.
pub open spec fn same_values(a: Seq<Variant>, b: Seq<Variant>) -> bool
    decreases a,
{
    if a.len() == 0 {
        b.len() == 0
    } else {
        b.len() > 0 && same_value(a.last(), b.last()) && same_values(a.drop_last(), b.drop_last())
    }
}

/// Two sequences of dictionary entries hold the same keys and values pairwise.
pub open spec fn same_entries(a: Seq<(Variant, Variant)>, b: Seq<(Variant, Variant)>) -> bool
    decreases a,
{
    if a.len() == 0 {
        b.len() == 0
    } else {
        b.len() > 0 && same_value(a.last().0, b.last().0) && same_value(a.last().1, b.last().1)
            && same_entries(a.drop_last(), b.drop_last())
    }
}

/// A deep copy of `v`.
pub fn clone_variant(v: &Variant) -> (r: Variant)
    ensures
        same_value(r, *v),
    decreases v, 1nat,
{
    match v {
        Variant::U8(x) => Variant::U8(*x),
        Variant::Bool(x) => Variant::Bool(*x),
        Variant::I16(x) => Variant::I16(*x),
        Variant::U16(x) => Variant::U16(*x),
        Variant::I32(x) => Variant::I32(*x),
        Variant::U32(x) => Variant::U32(*x),
        Variant::I64(x) => Variant::I64(*x),
        Variant::U64(x) => Variant::U64(*x),
        Variant::Double(x) => Variant::Double(*x),
        Variant::Str(s) => Variant::Str(s.clone()),
        Variant::Signature(s) => Variant::Signature(s.clone()),
        Variant::ObjectPath(s) => Variant::ObjectPath(s.clone()),
        Variant::Value(inner) => Variant::Value(Box::new(clone_variant(&**inner))),
        Variant::Array(sig, items) => Variant::Array(sig.clone(), clone_items(items)),
        Variant::Structure(items) => Variant::Structure(clone_items(items)),
        Variant::Dict(ks, vs, entries) => Variant::Dict(ks.clone(), vs.clone(), clone_entries(entries)),
        Variant::Fd(x) => Variant::Fd(*x),
    }
}

/// A deep copy of the elements of an array or structure.
fn clone_items(items: &Vec<Variant>) -> (r: Vec<Variant>)
    ensures
        same_values(r@, items@),
    decreases items@, 0nat,
{
    let mut out: Vec<Variant> = Vec::new();
    let mut i: usize = 0;
    while i < items.len()
        invariant
            i <= items.len(),
            same_values(out@, items@.take(i as int)),
        decreases items.len() - i,
    {
        let x = clone_variant(&items[i]);
        let ghost prev = out@;
        out.push(x);
        proof {
            assert(out@.drop_last() =~= prev);
            assert(items@.take(i + 1).drop_last() =~= items@.take(i as int));
        }
        i = i + 1;
    }
    assert(items@.take(items@.len() as int) =~= items@);
    out
}

/// A deep copy of the entries of a dictionary.
fn clone_entries(entries: &Vec<(Variant, Variant)>) -> (r: Vec<(Variant, Variant)>)
    ensures
        same_entries(r@, entries@),
    decreases entries@, 0nat,
{
    let mut out: Vec<(Variant, Variant)> = Vec::new();
    let mut i: usize = 0;
    while i < entries.len()
        invariant
            i <= entries.len(),
            same_entries(out@, entries@.take(i as int)),
        decreases entries.len() - i,
    {
        assert(decreases_to!(entries@ => entries@[i as int].0));
        assert(decreases_to!(entries@ => entries@[i as int].1));
        let k = clone_variant(&entries[i].0);
        let x = clone_variant(&entries[i].1);
        let ghost prev = out@;
        out.push((k, x));
        proof {
            assert(out@.drop_last() =~= prev);
            assert(entries@.take(i + 1).drop_last() =~= entries@.take(i as int));
        }
        i = i + 1;
    }
    assert(entries@.take(entries@.len() as int) =~= entries@);
    out
}

impl Clone for Variant {
    fn clone(&self) -> (r: Self)
        ensures
            same_value(r, *self),
    {
        clone_variant(self)
    }
}

/// A string-keyed dictionary of variants (`a{sv}`), in wire order.
pub type Vardict = Vec<(String, Variant)>;

/// The first entry of `map` whose key is `key`.
pub open spec fn lookup(map: Seq<(String, Variant)>, key: Seq<char>) -> Option<Variant>
    decreases map.len(),
{
    if map.len() == 0 {
        None
    } else if map[0].0@ == key {
        Some(map[0].1)
    } else {
        lookup(map.drop_first(), key)
    }
}

/// `v` with one variant layer removed (what `downcast_ref` reads through).
pub open spec fn peel(v: Variant) -> Variant {
    match v {
        Variant::Value(inner) => *inner,
        _ => v,
    }
}

/// The string a value holds, read through one variant layer.
pub open spec fn as_string(v: Variant) -> Option<Seq<char>> {
    match peel(v) {
        Variant::Str(s) => Some(s@),
        _ => None,
    }
}

/// The boolean a value holds, read through one variant layer.
pub open spec fn as_bool(v: Variant) -> Option<bool> {
    match peel(v) {
        Variant::Bool(b) => Some(b),
        _ => None,
    }
}

/// The byte a value holds, read through one variant layer.
pub open spec fn as_u8(v: Variant) -> Option<u8> {
    match peel(v) {
        Variant::U8(b) => Some(b),
        _ => None,
    }
}

/// The string stored under `key`, if it holds one.
pub open spec fn string_at(map: Seq<(String, Variant)>, key: Seq<char>) -> Option<Seq<char>> {
    match lookup(map, key) {
        Some(v) => as_string(v),
        None => None,
    }
}

/// The boolean stored under `key`; `false` when absent or not a boolean.
pub open spec fn bool_at(map: Seq<(String, Variant)>, key: Seq<char>) -> bool {
    match lookup(map, key) {
        Some(v) => as_bool(v) == Some(true),
        None => false,
    }
}

/// The index of the first entry of `map` keyed `key`, or `map.len()`.
pub open spec fn key_index(map: Seq<(String, Variant)>, key: Seq<char>) -> int
    decreases map.len(),
{
    if map.len() == 0 {
        0
    } else if map[0].0@ == key {
        0
    } else {
        1 + key_index(map.drop_first(), key)
    }
}

proof fn lemma_lookup_index(map: Seq<(String, Variant)>, key: Seq<char>)
    ensures
        0 <= key_index(map, key) <= map.len(),
        key_index(map, key) < map.len() ==> map[key_index(map, key)].0@ == key && lookup(map, key)
            == Some(map[key_index(map, key)].1),
        key_index(map, key) == map.len() ==> lookup(map, key) is None,
        forall|i: int| 0 <= i < key_index(map, key) ==> map[i].0@ != key,
    decreases map.len(),
{
    if map.len() > 0 && map[0].0@ != key {
        lemma_lookup_index(map.drop_first(), key);
        assert forall|i: int| 0 <= i < key_index(map, key) implies map[i].0@ != key by {
            if i > 0 {
                assert(map[i] == map.drop_first()[i - 1]);
            }
        }
    }
}

proof fn lemma_key_index_at(map: Seq<(String, Variant)>, key: Seq<char>, k: int)
    requires
        0 <= k <= map.len(),
        k < map.len() ==> map[k].0@ == key,
        forall|i: int| 0 <= i < k ==> map[i].0@ != key,
    ensures
        key_index(map, key) == k,
    decreases map.len(),
{
    if map.len() > 0 && map[0].0@ != key {
        assert forall|i: int| 0 <= i < k - 1 implies map.drop_first()[i].0@ != key by {
            assert(map.drop_first()[i] == map[i + 1]);
        }
        lemma_key_index_at(map.drop_first(), key, k - 1);
    }
}

/// The value stored under `key` (the first entry with that key).
pub fn get<'a>(map: &'a [(String, Variant)], key: &str) -> (r: Option<&'a Variant>)
    ensures
        match r {
            Some(v) => lookup(map@, key@) == Some(*v),
            None => lookup(map@, key@) is None,
        },
{
    let mut i: usize = 0;
    while i < map.len()
        invariant
            i <= map.len(),
            forall|j: int| 0 <= j < i ==> map@[j].0@ != key@,
        decreases map.len() - i,
    {
        if str_eq(map[i].0.as_str(), key) {
            proof {
                lemma_key_index_at(map@, key@, i as int);
                lemma_lookup_index(map@, key@);
            }
            return Some(&map[i].1);
        }
        i = i + 1;
    }
    proof {
        lemma_key_index_at(map@, key@, map.len() as int);
        lemma_lookup_index(map@, key@);
    }
    None
}

/// Reads `v` through one variant layer.
pub fn peeled(v: &Variant) -> (r: &Variant)
    ensures
        *r == peel(*v),
{
    match v {
        Variant::Value(inner) => &**inner,
        _ => v,
    }
}

/// The string a value holds (read through one variant layer).
pub fn value_string(v: &Variant) -> (r: Option<String>)
    ensures
        opt_view(r) == as_string(*v),
{
    match peeled(v) {
        Variant::Str(s) => Some(s.clone()),
        _ => None,
    }
}

/// The string stored under `key`, if it holds one.
pub fn get_string(map: &[(String, Variant)], key: &str) -> (r: Option<String>)
    ensures
        opt_view(r) == string_at(map@, key@),
{
    match get(map, key) {
        Some(v) => value_string(v),
        None => None,
    }
}

/// The boolean stored under `key`; `false` when absent or not a boolean.
pub fn get_bool(map: &[(String, Variant)], key: &str) -> (r: bool)
    ensures
        r == bool_at(map@, key@),
{
    match get(map, key) {
        Some(v) => match peeled(v) {
            Variant::Bool(b) => *b,
            _ => false,
        },
        None => false,
    }
}

/// The string an optional value holds, if it holds one.
pub fn owned_string(value: Option<&Variant>) -> (r: Option<String>)
    ensures
        opt_view(r) == match value {
            Some(v) => as_string(*v),
            None => None::<Seq<char>>,
        },
{
    match value {
        Some(v) => value_string(v),
        None => None,
    }
}

} // verus!
