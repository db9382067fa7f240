use vstd::prelude::*;
use vstd::string::*;

use crate::query::{decimal, decimal_string, negative_string};

verus! {

/// A JSON value as it travels to and from the service.
///
/// Integers that fit in 64 bits are held exactly, non-negative ones as
/// `UInt` and negative ones as `NegInt`; any other number keeps the text it
/// was written with.
#[derive(Debug)]
pub enum Json {
    Null,
    Bool(bool),
    UInt(u64),
    /// A negative integer.
    NegInt(i64),
    Number(String),
    Str(String),
    Array(Vec<Json>),
    Object(Vec<(String, Json)>),
}

/// The value of the first member of `fields`, from index `i` on, whose key is `key`.
pub open spec fn lookup_from(fields: Seq<(String, Json)>, key: Seq<char>, i: int) -> Option<Json>
    decreases fields.len() - i,
{
    if i < 0 || i >= fields.len() {
        None
    } else if fields[i].0@ == key {
        Some(fields[i].1)
    } else {
        lookup_from(fields, key, i + 1)
    }
}

/// The member `key` of an object; `None` when `j` is no object or has no such member.
pub open spec fn member(j: Json, key: Seq<char>) -> Option<Json> {
    match j {
        Json::Object(fields) => lookup_from(fields@, key, 0),
        _ => None,
    }
}

/// No member of the object `j` is `null`: absent values are left out.
pub open spec fn without_nulls(j: Json) -> bool {
    match j {
        Json::Object(fields) => forall|i: int| 0 <= i < fields@.len() ==> fields@[i].1 != Json::Null,
        _ => true,
    }
}

/// `m` is the wire form of the optional string `v` (absent or `null` for `None`).
pub open spec fn opt_str_rep(m: Option<Json>, v: Option<String>) -> bool {
    match v {
        None => absent(m),
        Some(s) => m == Some(Json::Str(s)),
    }
}

/// `m` is the wire form of the optional boolean `v`.
pub open spec fn opt_bool_rep(m: Option<Json>, v: Option<bool>) -> bool {
    match v {
        None => absent(m),
        Some(b) => m == Some(Json::Bool(b)),
    }
}

/// `m` is the wire form of the optional count `v`.
pub open spec fn opt_count_rep(m: Option<Json>, v: Option<usize>) -> bool {
    match v {
        None => absent(m),
        Some(n) => m == Some(Json::UInt(n as u64)),
    }
}

/// `m` is the wire form of the required string `s`.
pub open spec fn str_rep(m: Option<Json>, s: String) -> bool {
    m == Some(Json::Str(s))
}

/// `j` is an array of the strings `v`, in order.
pub open spec fn str_array_rep(j: Json, v: Seq<String>) -> bool {
    match j {
        Json::Array(items) => items@.len() == v.len() && forall|i: int|
            0 <= i < v.len() ==> #[trigger] items@[i] == Json::Str(v[i]),
        _ => false,
    }
}

/// `j` is an array whose items are all strings.
pub open spec fn is_str_array(j: Json) -> bool {
    match j {
        Json::Array(items) => forall|i: int| 0 <= i < items@.len() ==> #[trigger] items@[i] is Str,
        _ => false,
    }
}

/// `j` is an object whose members are the pairs `v`, in order, each value a string.
pub open spec fn str_map_rep(j: Json, v: Seq<(String, String)>) -> bool {
    match j {
        Json::Object(fields) => fields@.len() == v.len() && forall|i: int|
            0 <= i < v.len() ==> #[trigger] fields@[i] == (v[i].0, Json::Str(v[i].1)),
        _ => false,
    }
}

/// `m` is the wire form of the optional string map `v`.
pub open spec fn opt_str_map_rep(m: Option<Json>, v: Option<Vec<(String, String)>>) -> bool {
    match v {
        None => absent(m),
        Some(pairs) => m is Some && str_map_rep(m.unwrap(), pairs@),
    }
}

/// Changing the value of a member whose key is not `key` leaves the lookup of `key` as it was.
proof fn lemma_lookup_unchanged(
    f: Seq<(String, Json)>,
    g: Seq<(String, Json)>,
    idx: int,
    key: Seq<char>,
    i: int,
)
    requires
        f.len() == g.len(),
        0 <= idx < f.len(),
        forall|j: int| 0 <= j < f.len() && j != idx ==> f[j] == g[j],
        g[idx].0 == f[idx].0,
        f[idx].0@ != key,
    ensures
        lookup_from(g, key, i) == lookup_from(f, key, i),
    decreases f.len() - i,
{
    if 0 <= i < f.len() {
        lemma_lookup_unchanged(f, g, idx, key, i + 1);
    }
}

/// Takes the value of the first member `key` out of an object's members,
/// leaving `null` in its place; the lookup of every other key is unchanged.
pub fn take_member(fields: &mut Vec<(String, Json)>, key: &str) -> (r: Option<Json>)
    ensures
        r == lookup_from(old(fields)@, key@, 0),
        final(fields)@.len() == old(fields)@.len(),
        forall|k: Seq<char>|
            k != key@ ==> #[trigger] lookup_from(final(fields)@, k, 0) == lookup_from(old(fields)@, k, 0),
{
    let k = String::from_str(key);
    let mut i: usize = 0;
    while i < fields.len()
        invariant
            0 <= i <= fields@.len(),
            fields@ == old(fields)@,
            k@ == key@,
            lookup_from(fields@, key@, 0) == lookup_from(fields@, key@, i as int),
        decreases fields@.len() - i,
    {
        if fields[i].0 == k {
            let ghost before = fields@;
            let (name, value) = fields.remove(i);
            fields.insert(i, (name, Json::Null));
            assert forall|k2: Seq<char>| k2 != key@ implies #[trigger] lookup_from(fields@, k2, 0)
                == lookup_from(before, k2, 0) by {
                lemma_lookup_unchanged(before, fields@, i as int, k2, 0);
            }
            return Some(value);
        }
        i = i + 1;
    }
    None
}

/// Reads an optional string: `None` when the value has another type.
pub fn opt_string(m: Option<Json>) -> (r: Option<Option<String>>)
    ensures
        r is Some == accepts_opt_str(m),
        r is Some ==> opt_str_rep(m, r.unwrap()),
{
    match m {
        None => Some(None),
        Some(Json::Null) => Some(None),
        Some(Json::Str(s)) => Some(Some(s)),
        _ => None,
    }
}

/// Reads a required string.
pub fn req_string(m: Option<Json>) -> (r: Option<String>)
    ensures
        r is Some == accepts_str(m),
        r is Some ==> str_rep(m, r.unwrap()),
{
    match m {
        Some(Json::Str(s)) => Some(s),
        _ => None,
    }
}

/// Reads an optional boolean.
pub fn opt_bool(m: Option<Json>) -> (r: Option<Option<bool>>)
    ensures
        r is Some == accepts_opt_bool(m),
        r is Some ==> opt_bool_rep(m, r.unwrap()),
{
    match m {
        None => Some(None),
        Some(Json::Null) => Some(None),
        Some(Json::Bool(b)) => Some(Some(b)),
        _ => None,
    }
}

/// Reads an optional count, which must fit in `usize`.
pub fn opt_count(m: Option<Json>) -> (r: Option<Option<usize>>)
    ensures
        r is Some == accepts_opt_count(m),
        r is Some ==> opt_count_rep(m, r.unwrap()),
{
    match m {
        None => Some(None),
        Some(Json::Null) => Some(None),
        Some(Json::UInt(n)) => {
            if n <= usize::MAX as u64 {
                Some(Some(n as usize))
            } else {
                None
            }
        },
        _ => None,
    }
}

/// Reads the items of an array, each of which must be a string.
fn string_items(items: Vec<Json>) -> (r: Option<Vec<String>>)
    ensures
        r is Some == is_str_array(Json::Array(items)),
        r is Some ==> str_array_rep(Json::Array(items), r.unwrap()@),
{
    let ghost orig = items@;
    let mut rest = items;
    let n: usize = rest.len();
    let mut out: Vec<String> = Vec::new();
    let mut i: usize = 0;
    while rest.len() > 0
        invariant
            orig == items@,
            orig.len() == n,
            i + rest@.len() == orig.len(),
            rest@ == orig.skip(i as int),
            out@.len() == i,
            forall|j: int| 0 <= j < i ==> orig[j] == Json::Str(#[trigger] out@[j]),
        decreases rest@.len(),
    {
        let item = rest.remove(0);
        assert(orig.skip(i as int + 1) =~= orig.skip(i as int).remove(0));
        assert(item == orig[i as int]);
        match item {
            Json::Str(s) => {
                out.push(s);
            },
            _ => {
                assert(!(orig[i as int] is Str));
                return None;
            },
        }
        i = i + 1;
    }
    assert forall|j: int| 0 <= j < orig.len() implies orig[j] is Str by {
        assert(orig[j] == Json::Str(out@[j]));
    }
    Some(out)
}

/// Reads an array of strings.
pub fn string_list(m: Option<Json>) -> (r: Option<Vec<String>>)
    ensures
        r is Some == accepts_str_list(m),
        r is Some ==> str_list_rep(m, r.unwrap()@),
{
    match m {
        Some(Json::Array(items)) => string_items(items),
        _ => None,
    }
}

/// Appending a member leaves the lookup of every key already present as it
/// was, and finds the new value under its key otherwise.
proof fn lemma_lookup_push(f: Seq<(String, Json)>, entry: (String, Json), key: Seq<char>, i: int)
    requires
        0 <= i <= f.len(),
    ensures
        lookup_from(f.push(entry), key, i) == (match lookup_from(f, key, i) {
            Some(v) => Some(v),
            None => if entry.0@ == key {
                Some(entry.1)
            } else {
                None
            },
        }),
    decreases f.len() - i,
{
    assert(f.push(entry).len() == f.len() + 1);
    if i < f.len() {
        assert(f.push(entry)[i] == f[i]);
        lemma_lookup_push(f, entry, key, i + 1);
    } else {
        assert(f.push(entry)[i] == entry);
        assert(lookup_from(f.push(entry), key, i + 1) == None::<Json>);
        assert(lookup_from(f, key, i) == None::<Json>);
    }
}

/// The keys of the members `fields`, in order.
pub open spec fn keys_of(fields: Seq<(String, Json)>) -> Seq<Seq<char>> {
    fields.map_values(|f: (String, Json)| f.0@)
}

/// The keys of the object `j`, in order; empty when `j` is no object.
pub open spec fn object_keys(j: Json) -> Seq<Seq<char>> {
    match j {
        Json::Object(fields) => keys_of(fields@),
        _ => seq![],
    }
}

/// Appends the member `key: v` to an object under construction.
pub fn push_member(fields: &mut Vec<(String, Json)>, key: &str, v: Json)
    ensures
        keys_of(final(fields)@) == keys_of(old(fields)@).push(key@),
        final(fields)@ == old(fields)@.push(final(fields)@.last()),
        final(fields)@.last().0@ == key@,
        final(fields)@.last().1 == v,
        forall|k: Seq<char>|
            #[trigger] lookup_from(final(fields)@, k, 0) == (match lookup_from(old(fields)@, k, 0) {
                Some(x) => Some(x),
                None => if k == key@ {
                    Some(v)
                } else {
                    None
                },
            }),
        without_nulls(Json::Object(*old(fields))) && v != Json::Null ==> without_nulls(
            Json::Object(*final(fields)),
        ),
{
    let ghost before = fields@;
    fields.push((String::from_str(key), v));
    assert forall|k: Seq<char>|
        #[trigger] lookup_from(fields@, k, 0) == (match lookup_from(before, k, 0) {
            Some(x) => Some(x),
            None => if k == key@ {
                Some(v)
            } else {
                None
            },
        }) by {
        lemma_lookup_push(before, fields@.last(), k, 0);
        assert(fields@ == before.push(fields@.last()));
    }
    assert(keys_of(fields@) =~= keys_of(before).push(key@));
}

/// Writes an array of strings.
pub fn strings_to_json(v: &Vec<String>) -> (r: Json)
    ensures
        str_array_rep(r, v@),
{
    let mut items: Vec<Json> = Vec::new();
    let mut i: usize = 0;
    while i < v.len()
        invariant
            0 <= i <= v@.len(),
            items@.len() == i,
            forall|k: int| 0 <= k < i ==> #[trigger] items@[k] == Json::Str(v@[k]),
        decreases v@.len() - i,
    {
        items.push(Json::Str(v[i].clone()));
        i = i + 1;
    }
    Json::Array(items)
}

/// Writes an object whose members are the string pairs `v`, in order.
pub fn str_map_to_json(v: &Vec<(String, String)>) -> (r: Json)
    ensures
        str_map_rep(r, v@),
{
    let mut fields: Vec<(String, Json)> = Vec::new();
    let mut i: usize = 0;
    while i < v.len()
        invariant
            0 <= i <= v@.len(),
            fields@.len() == i,
            forall|k: int| 0 <= k < i ==> #[trigger] fields@[k] == (v@[k].0, Json::Str(v@[k].1)),
        decreases v@.len() - i,
    {
        fields.push((v[i].0.clone(), Json::Str(v[i].1.clone())));
        i = i + 1;
    }
    Json::Object(fields)
}

/// A type with a JSON wire form.
pub trait JsonSchema: Sized {
    /// `j` is the wire form of `v`.
    spec fn represents(j: Json, v: Self) -> bool;
}

/// A type that can be read from its JSON wire form.
pub trait FromJson: JsonSchema {
    /// The wire forms that can be read as a value of this type.
    spec fn accepts(j: Json) -> bool;

    /// Reads a value from its wire form; `None` where the schema rejects it.
    fn from_json(j: Json) -> (r: Option<Self>)
        ensures
            r is Some == Self::accepts(j),
            r is Some ==> Self::represents(j, r.unwrap()),
    ;
}

/// A type that can be written in its JSON wire form.
pub trait ToJson: JsonSchema {
    /// The keys of the wire form of `v`, in order: one for each field that is
    /// present, in the order the fields are declared.
    spec fn wire_keys(v: Self) -> Seq<Seq<char>>;

    /// `j` is exactly the tree that `to_json` writes for `v`: an object with
    /// the keys `wire_keys(v)`, in that order, no member `null`, each value
    /// fixed by `v`, and every nested object written the same way.
    spec fn written(j: Json, v: Self) -> bool;

    /// Writes the wire form of `self`: an object with exactly the keys
    /// `wire_keys(self)`, in that order; absent values are left out, never `null`.
    fn to_json(&self) -> (r: Json)
        ensures
            Self::written(r, *self),
            Self::represents(r, *self),
            r is Object,
            object_keys(r) == Self::wire_keys(*self),
            without_nulls(r),
    ;
}

/// `m` is an array of the wire forms of `v`, in order.
pub open spec fn list_rep<T: JsonSchema>(m: Option<Json>, v: Seq<T>) -> bool {
    match m {
        Some(Json::Array(items)) => items@.len() == v.len() && forall|k: int|
            0 <= k < items@.len() ==> T::represents(#[trigger] items@[k], v[k]),
        _ => false,
    }
}

/// `m` is an array whose items all read as values of `T`.
pub open spec fn accepts_list<T: FromJson>(m: Option<Json>) -> bool {
    match m {
        Some(Json::Array(items)) => forall|k: int| 0 <= k < items@.len() ==> T::accepts(#[trigger] items@[k]),
        _ => false,
    }
}

fn list_items<T: FromJson>(items: Vec<Json>) -> (r: Option<Vec<T>>)
    ensures
        r is Some == forall|k: int| 0 <= k < items@.len() ==> T::accepts(#[trigger] items@[k]),
        r is Some ==> r.unwrap()@.len() == items@.len(),
        r is Some ==> forall|k: int| 0 <= k < items@.len() ==> T::represents(#[trigger] items@[k], r.unwrap()@[k]),
{
    let ghost orig = items@;
    let mut rest = items;
    let n: usize = rest.len();
    let mut out: Vec<T> = Vec::new();
    let mut i: usize = 0;
    while rest.len() > 0
        invariant
            orig == items@,
            orig.len() == n,
            i + rest@.len() == orig.len(),
            rest@ == orig.skip(i as int),
            out@.len() == i,
            forall|j: int| 0 <= j < i ==> T::accepts(#[trigger] orig[j]),
            forall|j: int| 0 <= j < i ==> T::represents(#[trigger] orig[j], out@[j]),
        decreases rest@.len(),
    {
        let item = rest.remove(0);
        assert(orig.skip(i as int + 1) =~= orig.skip(i as int).remove(0));
        assert(item == orig[i as int]);
        match T::from_json(item) {
            Some(v) => {
                out.push(v);
            },
            None => {
                assert(!T::accepts(orig[i as int]));
                assert(!T::accepts(items@[i as int]));
                assert(0 <= i < items@.len());
                return None;
            },
        }
        i = i + 1;
    }
    Some(out)
}

/// Reads an array of values of `T`.
pub fn list_from_json<T: FromJson>(m: Option<Json>) -> (r: Option<Vec<T>>)
    ensures
        r is Some == accepts_list::<T>(m),
        r is Some ==> list_rep(m, r.unwrap()@),
{
    match m {
        Some(Json::Array(items)) => list_items(items),
        _ => None,
    }
}

/// Writes an array of the wire forms of `v`, in order.
pub fn list_to_json<T: ToJson>(v: &Vec<T>) -> (r: Json)
    ensures
        match r {
            Json::Array(items) => items@.len() == v@.len() && forall|k: int|
                0 <= k < v@.len() ==> T::represents(#[trigger] items@[k], v@[k]) && T::written(items@[k], v@[k]),
            _ => false,
        },
{
    let mut items: Vec<Json> = Vec::new();
    let mut i: usize = 0;
    while i < v.len()
        invariant
            0 <= i <= v@.len(),
            items@.len() == i,
            forall|k: int| 0 <= k < i ==> T::represents(#[trigger] items@[k], v@[k]) && T::written(items@[k], v@[k]),
        decreases v@.len() - i,
    {
        items.push(v[i].to_json());
        i = i + 1;
    }
    Json::Array(items)
}

/// Writes an object whose members are the keys of `v` with the wire forms
/// of their values, in order.
pub fn map_to_json<T: ToJson>(v: &Vec<(String, T)>) -> (r: Json)
    ensures
        match r {
            Json::Object(fields) => fields@.len() == v@.len() && forall|k: int|
                0 <= k < v@.len() ==> #[trigger] fields@[k].0 == v@[k].0 && T::represents(
                    fields@[k].1,
                    v@[k].1,
                ) && T::written(fields@[k].1, v@[k].1),
            _ => false,
        },
{
    let mut fields: Vec<(String, Json)> = Vec::new();
    let mut i: usize = 0;
    while i < v.len()
        invariant
            0 <= i <= v@.len(),
            fields@.len() == i,
            forall|k: int| 0 <= k < i ==> #[trigger] fields@[k].0 == v@[k].0 && T::represents(
                fields@[k].1,
                v@[k].1,
            ) && T::written(fields@[k].1, v@[k].1),
        decreases v@.len() - i,
    {
        fields.push((v[i].0.clone(), v[i].1.to_json()));
        i = i + 1;
    }
    Json::Object(fields)
}

/// Reads a required boolean.
pub fn req_bool(m: Option<Json>) -> (r: Option<bool>)
    ensures
        r is Some == accepts_bool(m),
        r is Some ==> bool_rep(m, r.unwrap()),
{
    match m {
        Some(Json::Bool(b)) => Some(b),
        _ => None,
    }
}

/// `m` is absent or `null`.
pub open spec fn absent(m: Option<Json>) -> bool {
    m is None || m == Some(Json::Null)
}

/// `m` is the boolean `b`.
pub open spec fn bool_rep(m: Option<Json>, b: bool) -> bool {
    m == Some(Json::Bool(b))
}

/// `m` is an array of the strings `v`, in order.
pub open spec fn str_list_rep(m: Option<Json>, v: Seq<String>) -> bool {
    m is Some && str_array_rep(m.unwrap(), v)
}

/// `m` is the wire form of `v`.
pub open spec fn obj_rep<T: JsonSchema>(m: Option<Json>, v: T) -> bool {
    m is Some && T::represents(m.unwrap(), v)
}

/// `m` is the wire form of the optional `v`.
pub open spec fn opt_obj_rep<T: JsonSchema>(m: Option<Json>, v: Option<T>) -> bool {
    match v {
        None => absent(m),
        Some(x) => obj_rep(m, x),
    }
}

/// `m` is the wire form of the optional list `v`.
pub open spec fn opt_list_rep<T: JsonSchema>(m: Option<Json>, v: Option<Vec<T>>) -> bool {
    match v {
        None => absent(m),
        Some(x) => list_rep(m, x@),
    }
}

/// `m` is an object whose members are the keys of `v` with the wire forms of
/// their values, in order; absent or `null` for `None`.
pub open spec fn opt_obj_map_rep<T: JsonSchema>(m: Option<Json>, v: Option<Vec<(String, T)>>) -> bool {
    match v {
        None => absent(m),
        Some(x) => match m {
            Some(Json::Object(fs)) => fs@.len() == x@.len() && forall|k: int|
                0 <= k < x@.len() ==> #[trigger] fs@[k].0 == x@[k].0 && T::represents(fs@[k].1, x@[k].1),
            _ => false,
        },
    }
}

/// `m` is exactly the tree written for `v`.
pub open spec fn obj_written<T: ToJson>(m: Option<Json>, v: T) -> bool {
    m is Some && T::written(m.unwrap(), v)
}

/// `m` is absent for `None`, else exactly the tree written for the value.
pub open spec fn opt_obj_written<T: ToJson>(m: Option<Json>, v: Option<T>) -> bool {
    match v {
        None => m is None,
        Some(x) => obj_written(m, x),
    }
}

/// `m` is an array of exactly the trees written for `v`, in order.
pub open spec fn list_written<T: ToJson>(m: Option<Json>, v: Seq<T>) -> bool {
    match m {
        Some(Json::Array(items)) => items@.len() == v.len() && forall|k: int|
            0 <= k < items@.len() ==> T::written(#[trigger] items@[k], v[k]),
        _ => false,
    }
}

/// `m` is absent for `None`, else an object whose members are the keys of
/// the pairs with exactly the trees written for their values, in order.
pub open spec fn opt_obj_map_written<T: ToJson>(m: Option<Json>, v: Option<Vec<(String, T)>>) -> bool {
    match v {
        None => m is None,
        Some(x) => match m {
            Some(Json::Object(fs)) => fs@.len() == x@.len() && forall|k: int|
                0 <= k < x@.len() ==> #[trigger] fs@[k].0 == x@[k].0 && T::written(fs@[k].1, x@[k].1),
            _ => false,
        },
    }
}

/// `m` is a string.
pub open spec fn accepts_str(m: Option<Json>) -> bool {
    m matches Some(Json::Str(_))
}

/// `m` is absent, `null` or a string.
pub open spec fn accepts_opt_str(m: Option<Json>) -> bool {
    absent(m) || accepts_str(m)
}

/// `m` is a boolean.
pub open spec fn accepts_bool(m: Option<Json>) -> bool {
    m matches Some(Json::Bool(_))
}

/// `m` is absent, `null` or a boolean.
pub open spec fn accepts_opt_bool(m: Option<Json>) -> bool {
    absent(m) || accepts_bool(m)
}

/// `m` is absent, `null` or a non-negative integer that fits in `usize`.
pub open spec fn accepts_opt_count(m: Option<Json>) -> bool {
    absent(m) || (m matches Some(Json::UInt(n)) && n <= usize::MAX)
}

/// `m` is an array of strings.
pub open spec fn accepts_str_list(m: Option<Json>) -> bool {
    m is Some && is_str_array(m.unwrap())
}

/// `m` reads as a value of `T`.
pub open spec fn accepts_obj<T: FromJson>(m: Option<Json>) -> bool {
    m is Some && T::accepts(m.unwrap())
}

/// `m` is absent, `null` or reads as a value of `T`.
pub open spec fn accepts_opt_obj<T: FromJson>(m: Option<Json>) -> bool {
    absent(m) || accepts_obj::<T>(m)
}

/// `m` is absent, `null` or an array whose items all read as values of `T`.
pub open spec fn accepts_opt_list<T: FromJson>(m: Option<Json>) -> bool {
    absent(m) || accepts_list::<T>(m)
}

/// Reads a required value of `T`.
pub fn req_object<T: FromJson>(m: Option<Json>) -> (r: Option<T>)
    ensures
        r is Some == accepts_obj::<T>(m),
        r is Some ==> obj_rep(m, r.unwrap()),
{
    match m {
        Some(x) => T::from_json(x),
        None => None,
    }
}

/// Reads an optional value of `T`.
pub fn opt_object<T: FromJson>(m: Option<Json>) -> (r: Option<Option<T>>)
    ensures
        r is Some == accepts_opt_obj::<T>(m),
        r is Some ==> opt_obj_rep(m, r.unwrap()),
{
    match m {
        None => Some(None),
        Some(Json::Null) => Some(None),
        Some(x) => match T::from_json(x) {
            Some(y) => Some(Some(y)),
            None => None,
        },
    }
}

/// Reads an optional array of values of `T`.
pub fn opt_list<T: FromJson>(m: Option<Json>) -> (r: Option<Option<Vec<T>>>)
    ensures
        r is Some == accepts_opt_list::<T>(m),
        r is Some ==> opt_list_rep(m, r.unwrap()),
{
    match m {
        None => Some(None),
        Some(Json::Null) => Some(None),
        other => match list_from_json::<T>(other) {
            Some(y) => Some(Some(y)),
            None => None,
        },
    }
}

/// `m` is a number written as `text`.
pub open spec fn num_rep(m: Option<Json>, text: String) -> bool {
    match m {
        Some(Json::Number(t)) => t == text,
        Some(Json::UInt(n)) => text@ == decimal(n as nat),
        Some(Json::NegInt(n)) => n < 0 && text@ == "-"@ + decimal((-n) as nat),
        _ => false,
    }
}

/// `m` is a number.
pub open spec fn accepts_num(m: Option<Json>) -> bool {
    m matches Some(Json::Number(_)) || m matches Some(Json::UInt(_)) || (m matches Some(Json::NegInt(n))
        && n < 0)
}

/// Reads a required number as its text.
pub fn req_number(m: Option<Json>) -> (r: Option<String>)
    ensures
        r is Some == accepts_num(m),
        r is Some ==> num_rep(m, r.unwrap()),
{
    match m {
        Some(Json::Number(t)) => Some(t),
        Some(Json::UInt(n)) => Some(decimal_string(n)),
        Some(Json::NegInt(n)) => {
            if n < 0 {
                Some(negative_string(n))
            } else {
                None
            }
        },
        _ => None,
    }
}

/// No key occurs twice among `pairs`.
pub open spec fn unique_keys<T>(pairs: Seq<(String, T)>) -> bool {
    forall|i: int, k: int| 0 <= i < k < pairs.len() ==> #[trigger] pairs[i].0@ != #[trigger] pairs[k].0@
}

/// Whether no key occurs twice among `pairs`.
pub fn has_unique_keys<T>(pairs: &Vec<(String, T)>) -> (r: bool)
    ensures
        r == unique_keys(pairs@),
{
    let mut k: usize = 0;
    while k < pairs.len()
        invariant
            0 <= k <= pairs@.len(),
            forall|a: int, b: int| 0 <= a < b < k ==> #[trigger] pairs@[a].0@ != #[trigger] pairs@[b].0@,
        decreases pairs@.len() - k,
    {
        let mut i: usize = 0;
        while i < k
            invariant
                0 <= i <= k < pairs@.len(),
                forall|a: int, b: int| 0 <= a < b < k ==> #[trigger] pairs@[a].0@ != #[trigger] pairs@[b].0@,
                forall|a: int| 0 <= a < i ==> #[trigger] pairs@[a].0@ != pairs@[k as int].0@,
            decreases k - i,
        {
            if pairs[i].0 == pairs[k].0 {
                return false;
            }
            i = i + 1;
        }
        k = k + 1;
    }
    true
}

} // verus!
