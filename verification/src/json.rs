//! The JSON values that the protocol reads from a request.
//!
//! Parsing JSON text is left to `serde_json`; this module holds the tree
//! that the request handling inspects, and the questions it asks of it.

use vstd::prelude::*;

verus! {

/// A JSON number.
#[derive(Debug, PartialEq, Clone)]
pub enum JsonNumber {
    /// A non-negative integer that fits in `u64`.
    PosInt(u64),
    /// A negative integer that fits in `i64`.
    NegInt(i64),
    /// Any other number (one with a fraction or an exponent, or one out of
    /// the integer ranges), held as its JSON text.
    Float(String),
}

/// A JSON value.
#[derive(Debug, PartialEq)]
pub enum Json {
    Null,
    Bool(bool),
    Number(JsonNumber),
    String(String),
    Array(Vec<Json>),
    /// The entries of an object, in order. An object read from JSON text
    /// holds each key once ([`json_keys_unique`]); a key is then found at the
    /// one entry that has it, whatever the order ([`lemma_unique_lookup`]).
    Object(Vec<(String, Json)>),
}

/// The value as an unsigned integer, where it is one.
pub open spec fn spec_as_u64(j: Json) -> Option<u64> {
    match j {
        Json::Number(JsonNumber::PosInt(n)) => Some(n),
        _ => None,
    }
}

impl Json {
    /// The value as an unsigned integer, where it is one.
    pub fn as_u64(&self) -> (r: Option<u64>)
        ensures
            r == spec_as_u64(*self),
    {
        match self {
            Json::Number(JsonNumber::PosInt(n)) => Some(*n),
            _ => None,
        }
    }
}

/// The string that the value is, if it is one.
pub open spec fn spec_as_string(j: Json) -> Option<String> {
    match j {
        Json::String(s) => Some(s),
        _ => None,
    }
}

/// The value as a string, where it is one.
pub fn into_string(j: Json) -> (r: Option<String>)
    ensures
        r == spec_as_string(j),
{
    match j {
        Json::String(s) => Some(s),
        _ => None,
    }
}

/// The index of the first entry whose key is `key`.
pub open spec fn spec_find_key(entries: Seq<(String, Json)>, key: Seq<char>) -> Option<int>
    decreases entries.len(),
{
    if entries.len() == 0 {
        None
    } else if entries[0].0@ == key {
        Some(0)
    } else {
        match spec_find_key(entries.drop_first(), key) {
            Some(i) => Some(i + 1),
            None => None,
        }
    }
}

/// The index of the first entry with a key is an index of the entries, and the
/// entry there has that key.
pub proof fn lemma_find_key_bounds(entries: Seq<(String, Json)>, key: Seq<char>)
    ensures
        spec_find_key(entries, key) matches Some(i) ==> 0 <= i < entries.len() && entries[i].0@ == key,
    decreases entries.len(),
{
    if entries.len() > 0 && entries[0].0@ != key {
        lemma_find_key_bounds(entries.drop_first(), key);
        if let Some(i) = spec_find_key(entries.drop_first(), key) {
            assert(entries.drop_first()[i] == entries[i + 1]);
        }
    }
}

/// The first entry with a key is the one at the first index whose key it is.
pub proof fn lemma_find_key(entries: Seq<(String, Json)>, key: Seq<char>, i: int)
    requires
        0 <= i <= entries.len(),
        forall|j: int| 0 <= j < i ==> (#[trigger] entries[j]).0@ != key,
    ensures
        i < entries.len() && entries[i].0@ == key ==> spec_find_key(entries, key) == Some(i),
        i == entries.len() ==> spec_find_key(entries, key) is None,
    decreases i,
{
    if i > 0 {
        let rest = entries.drop_first();
        assert forall|j: int| 0 <= j < i - 1 implies (#[trigger] rest[j]).0@ != key by {
            assert(rest[j] == entries[j + 1]);
        }
        lemma_find_key(rest, key, i - 1);
        assert(entries[0].0@ != key);
    } else if entries.len() > 0 {
        assert(entries[0] == entries[0]);
    }
}

/// The value of the first entry whose key is `key`.
pub open spec fn spec_lookup(entries: Seq<(String, Json)>, key: Seq<char>) -> Option<Json> {
    match spec_find_key(entries, key) {
        Some(i) => Some(entries[i].1),
        None => None,
    }
}

/// The entries without the first one whose key is `key`.
pub open spec fn spec_without_key(entries: Seq<(String, Json)>, key: Seq<char>) -> Seq<(String, Json)> {
    match spec_find_key(entries, key) {
        Some(i) => entries.remove(i),
        None => entries,
    }
}

/// No two entries have the same key, as in a JSON object that `serde_json`
/// parses (its maps hold each key once).
pub open spec fn keys_unique<V>(entries: Seq<(String, V)>) -> bool {
    forall|a: int, b: int|
        0 <= a < entries.len() && 0 <= b < entries.len() && a != b ==> (#[trigger] entries[a]).0@
            != (#[trigger] entries[b]).0@
}

/// Every object in `j`, `j` itself included, holds each key once.
pub open spec fn json_keys_unique(j: Json) -> bool
    decreases j,
{
    match j {
        Json::Array(v) => forall|i: int| #![trigger v@[i]] 0 <= i < v@.len() ==> json_keys_unique(v@[i]),
        Json::Object(e) => keys_unique(e@) && forall|i: int|
            #![trigger e@[i]]
            0 <= i < e@.len() ==> json_keys_unique(e@[i].1),
        _ => true,
    }
}

/// Where each key occurs once, the entries behave as a map: a key is found at
/// the one entry that has it, whatever the order of the entries, and removing
/// it removes that entry; a key that no entry has is not found.
pub proof fn lemma_unique_lookup(entries: Seq<(String, Json)>, key: Seq<char>)
    requires
        keys_unique(entries),
    ensures
        forall|m: int|
            0 <= m < entries.len() && (#[trigger] entries[m]).0@ == key ==> spec_lookup(entries, key)
                == Some(entries[m].1) && spec_without_key(entries, key) == entries.remove(m),
        (forall|m: int| 0 <= m < entries.len() ==> (#[trigger] entries[m]).0@ != key) ==> spec_lookup(
            entries,
            key,
        ) is None && spec_without_key(entries, key) == entries,
{
    assert forall|m: int|
        0 <= m < entries.len() && (#[trigger] entries[m]).0@ == key implies spec_lookup(entries, key)
        == Some(entries[m].1) && spec_without_key(entries, key) == entries.remove(m) by {
        assert forall|j: int| 0 <= j < m implies (#[trigger] entries[j]).0@ != key by {
            assert(entries[j].0@ != entries[m].0@);
        }
        lemma_find_key(entries, key, m);
    }
    if forall|m: int| 0 <= m < entries.len() ==> (#[trigger] entries[m]).0@ != key {
        lemma_find_key(entries, key, entries.len() as int);
    }
}

/// Removing a key from entries that hold each key once leaves entries that
/// hold each key once, in which that key is not found and every other key is
/// found with the value it had.
pub proof fn lemma_without_key_unique(entries: Seq<(String, Json)>, key: Seq<char>)
    requires
        keys_unique(entries),
    ensures
        keys_unique(spec_without_key(entries, key)),
        spec_lookup(spec_without_key(entries, key), key) is None,
        forall|other: Seq<char>|
            other != key ==> #[trigger] spec_lookup(spec_without_key(entries, key), other) == spec_lookup(
                entries,
                other,
            ),
{
    lemma_find_key_bounds(entries, key);
    lemma_unique_lookup(entries, key);
    let w = spec_without_key(entries, key);
    match spec_find_key(entries, key) {
        None => {
            assert forall|m: int| 0 <= m < entries.len() implies (#[trigger] entries[m]).0@ != key by {
                if entries[m].0@ == key {
                    lemma_find_key_bounds(entries, key);
                }
            }
            assert(w == entries);
            lemma_unique_lookup(entries, key);
        },
        Some(i) => {
            assert(w == entries.remove(i));
            assert forall|a: int| 0 <= a < w.len() implies #[trigger] w[a] == entries[if a < i {
                a
            } else {
                a + 1
            }] by {}
            assert forall|a: int, b: int|
                0 <= a < w.len() && 0 <= b < w.len() && a != b implies (#[trigger] w[a]).0@
                != (#[trigger] w[b]).0@ by {
                let ea = if a < i { a } else { a + 1 };
                let eb = if b < i { b } else { b + 1 };
                assert(entries[ea].0@ != entries[eb].0@);
            }
            assert forall|m: int| 0 <= m < w.len() implies (#[trigger] w[m]).0@ != key by {
                let em = if m < i { m } else { m + 1 };
                assert(entries[em].0@ != entries[i].0@);
            }
            lemma_unique_lookup(w, key);
            assert forall|other: Seq<char>| other != key implies #[trigger] spec_lookup(w, other)
                == spec_lookup(entries, other) by {
                lemma_unique_lookup(w, other);
                lemma_unique_lookup(entries, other);
                if exists|m: int| 0 <= m < entries.len() && (#[trigger] entries[m]).0@ == other {
                    let m = choose|m: int| 0 <= m < entries.len() && (#[trigger] entries[m]).0@ == other;
                    assert(m != i);
                    let wm = if m < i { m } else { m - 1 };
                    assert(w[wm] == entries[m]);
                } else {
                    assert forall|m: int| 0 <= m < w.len() implies (#[trigger] w[m]).0@ != other by {
                        let em = if m < i { m } else { m + 1 };
                        assert(entries[em] == w[m]);
                    }
                }
            }
        },
    }
}

/// The value that a key is found with in an object whose keys are each held
/// once, everywhere inside, holds each key once everywhere inside too.
pub proof fn lemma_lookup_keys_unique(entries: Seq<(String, Json)>, key: Seq<char>)
    requires
        forall|i: int| #![trigger entries[i]] 0 <= i < entries.len() ==> json_keys_unique(entries[i].1),
    ensures
        spec_lookup(entries, key) matches Some(v) ==> json_keys_unique(v),
{
    lemma_find_key_bounds(entries, key);
}

/// Looking a key up in entries with one more at the end finds the earlier
/// entry if there is one, else the new entry if its key matches.
pub proof fn lemma_lookup_push(entries: Seq<(String, Json)>, e: (String, Json), key: Seq<char>)
    ensures
        spec_lookup(entries.push(e), key) == (if spec_lookup(entries, key) is Some {
            spec_lookup(entries, key)
        } else if e.0@ == key {
            Some(e.1)
        } else {
            None
        }),
    decreases entries.len(),
{
    let s = entries.push(e);
    if entries.len() == 0 {
        assert(s.drop_first() =~= Seq::<(String, Json)>::empty());
        assert(s[0] == e);
    } else {
        assert(s[0] == entries[0]);
        assert(s.drop_first() =~= entries.drop_first().push(e));
        lemma_lookup_push(entries.drop_first(), e, key);
        if entries[0].0@ != key {
            lemma_find_key_bounds(entries.drop_first(), key);
            lemma_find_key_bounds(s.drop_first(), key);
            assert(spec_lookup(entries, key) == spec_lookup(entries.drop_first(), key)) by {
                match spec_find_key(entries.drop_first(), key) {
                    Some(i) => {
                        assert(entries.drop_first()[i] == entries[i + 1]);
                    },
                    None => {},
                }
            }
            assert(spec_lookup(s, key) == spec_lookup(s.drop_first(), key)) by {
                match spec_find_key(s.drop_first(), key) {
                    Some(i) => {
                        assert(s.drop_first()[i] == s[i + 1]);
                    },
                    None => {},
                }
            }
        }
    }
}

/// The values of the first entries with the keys `k0`, `k1` and `k2`.
pub fn take_three(entries: Vec<(String, Json)>, k0: &str, k1: &str, k2: &str) -> (r: (
    Option<Json>,
    Option<Json>,
    Option<Json>,
))
    requires
        k0@ != k1@,
        k1@ != k2@,
        k0@ != k2@,
    ensures
        r.0 == spec_lookup(entries@, k0@),
        r.1 == spec_lookup(entries@, k1@),
        r.2 == spec_lookup(entries@, k2@),
{
    let w0 = k0.to_owned();
    let w1 = k1.to_owned();
    let w2 = k2.to_owned();
    let ghost orig = entries@;
    let mut rest = entries;
    let mut r0: Option<Json> = None;
    let mut r1: Option<Json> = None;
    let mut r2: Option<Json> = None;
    let mut n: usize = 0;
    assert(orig.take(0) =~= Seq::<(String, Json)>::empty());
    let total = rest.len();
    assert(orig.len() == total);
    while rest.len() > 0
        invariant
            orig.len() <= usize::MAX,
            n <= orig.len(),
            k0@ != k1@,
            k1@ != k2@,
            k0@ != k2@,
            rest@ == orig.skip(n as int),
            w0@ == k0@,
            w1@ == k1@,
            w2@ == k2@,
            r0 == spec_lookup(orig.take(n as int), k0@),
            r1 == spec_lookup(orig.take(n as int), k1@),
            r2 == spec_lookup(orig.take(n as int), k2@),
        decreases rest@.len(),
    {
        assert(rest@[0] == orig[n as int]);
        let (key, value) = rest.remove(0);
        proof {
            assert(orig.take(n + 1) =~= orig.take(n as int).push(orig[n as int]));
            lemma_lookup_push(orig.take(n as int), orig[n as int], k0@);
            lemma_lookup_push(orig.take(n as int), orig[n as int], k1@);
            lemma_lookup_push(orig.take(n as int), orig[n as int], k2@);
        }
        if r0.is_none() && key == w0 {
            r0 = Some(value);
        } else if r1.is_none() && key == w1 {
            r1 = Some(value);
        } else if r2.is_none() && key == w2 {
            r2 = Some(value);
        }
        n = n + 1;
        assert(rest@ =~= orig.skip(n as int));
    }
    assert(orig.take(orig.len() as int) =~= orig);
    (r0, r1, r2)
}

/// Removes the first entry whose key is `key` and returns its value.
pub fn take_entry(entries: &mut Vec<(String, Json)>, key: &str) -> (r: Option<Json>)
    ensures
        r == spec_lookup(old(entries)@, key@),
        final(entries)@ == spec_without_key(old(entries)@, key@),
{
    let wanted = key.to_owned();
    let mut i: usize = 0;
    while i < entries.len()
        invariant
            i <= entries@.len(),
            entries@ == old(entries)@,
            wanted@ == key@,
            forall|j: int| 0 <= j < i ==> (#[trigger] entries@[j]).0@ != key@,
        decreases entries@.len() - i,
    {
        if entries[i].0 == wanted {
            proof {
                lemma_find_key(entries@, key@, i as int);
            }
            let (_, value) = entries.remove(i);
            return Some(value);
        }
        i = i + 1;
    }
    proof {
        lemma_find_key(entries@, key@, i as int);
    }
    None
}

/// Input data for a simulation step: for each entity, for each attribute, the
/// values sent by each source (a full ID). Read from JSON text, each level
/// holds each key once ([`input_data_keys_unique`]).
pub type InputData = Vec<(String, Vec<(String, Vec<(String, Json)>)>)>;

/// The requested outputs: for each entity, the attributes whose values are
/// needed. Read from JSON text, each entity occurs once ([`keys_unique`]).
pub type OutputRequest = Vec<(String, Vec<String>)>;

/// `j` is an object whose values are all objects.
pub open spec fn is_map_of_maps(j: Json) -> bool {
    match j {
        Json::Object(v) => forall|k: int| 0 <= k < v@.len() ==> (#[trigger] v@[k]).1 is Object,
        _ => false,
    }
}

/// `j` is an object of input data: its values are objects whose values are objects.
pub open spec fn is_input_data(j: Json) -> bool {
    match j {
        Json::Object(v) => forall|i: int| #![trigger v@[i]] 0 <= i < v@.len() ==> is_map_of_maps(v@[i].1),
        _ => false,
    }
}

/// `a` holds the entries of the object `j` in order, each value's entries in place of the value.
pub open spec fn map_of_maps_matches(j: Json, a: Seq<(String, Vec<(String, Json)>)>) -> bool {
    match j {
        Json::Object(v) => v@.len() == a.len() && forall|k: int|
            0 <= k < a.len() ==> (#[trigger] a[k]).0 == v@[k].0 && v@[k].1 == Json::Object(a[k].1),
        _ => false,
    }
}

/// `d` holds the input data of `j`, entry for entry and in order.
pub open spec fn input_data_matches(j: Json, d: Seq<(String, Vec<(String, Vec<(String, Json)>)>)>) -> bool {
    match j {
        Json::Object(v) => v@.len() == d.len() && forall|i: int|
            0 <= i < d.len() ==> (#[trigger] d[i]).0 == v@[i].0 && map_of_maps_matches(v@[i].1, d[i].1@),
        _ => false,
    }
}

/// The entries of the object `j` with each value's entries in place of the value,
/// where `j` is an object whose values are objects.
fn map_of_maps(j: Json) -> (r: Option<Vec<(String, Vec<(String, Json)>)>>)
    ensures
        r is Some <==> is_map_of_maps(j),
        r matches Some(a) ==> map_of_maps_matches(j, a@),
{
    match j {
        Json::Object(v0) => {
            let ghost orig = v0@;
            assert(j == Json::Object(v0));
            let mut v = v0;
            let mut out: Vec<(String, Vec<(String, Json)>)> = Vec::new();
            while v.len() > 0
                invariant
                    j == Json::Object(v0),
                    orig == v0@,
                    out@.len() <= orig.len(),
                    v@ == orig.skip(out@.len() as int),
                    forall|k: int| 0 <= k < out@.len() ==> (#[trigger] out@[k]).0 == orig[k].0
                        && orig[k].1 == Json::Object(out@[k].1),
                decreases v@.len(),
            {
                let ghost n = out@.len() as int;
                assert(v@[0] == orig[n]);
                let (key, value) = v.remove(0);
                match value {
                    Json::Object(inner) => {
                        out.push((key, inner));
                        assert(v@ =~= orig.skip(out@.len() as int));
                    },
                    _ => {
                        assert(!(orig[n].1 is Object));
                        return None;
                    },
                }
            }
            assert(out@.len() == orig.len());
            assert forall|k: int| 0 <= k < orig.len() implies (#[trigger] orig[k]).1 is Object by {
                assert(out@[k].0 == orig[k].0);
            }
            Some(out)
        },
        _ => None,
    }
}

/// The input data that `j` holds, where `j` is an object whose values are
/// objects whose values are objects.
pub fn input_data(j: Json) -> (r: Option<InputData>)
    ensures
        r is Some <==> is_input_data(j),
        r matches Some(d) ==> input_data_matches(j, d@),
        r matches Some(d) ==> (json_keys_unique(j) ==> input_data_keys_unique(d@)),
{
    match j {
        Json::Object(v0) => {
            let ghost orig = v0@;
            assert(j == Json::Object(v0));
            let mut v = v0;
            let mut out: InputData = Vec::new();
            while v.len() > 0
                invariant
                    j == Json::Object(v0),
                    orig == v0@,
                    out@.len() <= orig.len(),
                    v@ == orig.skip(out@.len() as int),
                    forall|i: int| 0 <= i < out@.len() ==> (#[trigger] out@[i]).0 == orig[i].0
                        && map_of_maps_matches(orig[i].1, out@[i].1@) && is_map_of_maps(orig[i].1),
                decreases v@.len(),
            {
                let ghost n = out@.len() as int;
                assert(v@[0] == orig[n]);
                let (key, value) = v.remove(0);
                match map_of_maps(value) {
                    Some(attrs) => {
                        out.push((key, attrs));
                        assert(v@ =~= orig.skip(out@.len() as int));
                    },
                    None => {
                        assert(!is_map_of_maps(orig[n].1));
                        proof {
                            assert(j->Object_0 == v0);
                            if is_input_data(j) {
                                assert(forall|i: int|
                                    #![trigger v0@[i]]
                                    0 <= i < v0@.len() ==> is_map_of_maps(v0@[i].1));
                                assert(is_map_of_maps(v0@[n].1));
                            }
                        }
                        return None;
                    },
                }
            }
            assert(out@.len() == orig.len());
            assert forall|i: int| 0 <= i < orig.len() implies is_map_of_maps(#[trigger] orig[i].1) by {
                assert(out@[i].0 == orig[i].0);
            }
            proof {
                if json_keys_unique(j) {
                    assert(j->Object_0 == v0);
                    lemma_input_data_keys_unique(j, out@);
                }
            }
            Some(out)
        },
        _ => None,
    }
}

/// The entities of `d`, the attributes of each and the sources of each hold
/// each key once.
pub open spec fn input_data_keys_unique(d: Seq<(String, Vec<(String, Vec<(String, Json)>)>)>) -> bool {
    &&& keys_unique(d)
    &&& forall|i: int|
        #![trigger d[i]]
        0 <= i < d.len() ==> keys_unique(d[i].1@) && forall|k: int|
            #![trigger d[i].1@[k]]
            0 <= k < d[i].1@.len() ==> keys_unique(d[i].1@[k].1@) && forall|s: int|
                #![trigger d[i].1@[k].1@[s]]
                0 <= s < d[i].1@[k].1@.len() ==> json_keys_unique(d[i].1@[k].1@[s].1)
}

/// Input data read from an object that holds each key once, everywhere
/// inside, holds each key once at each level.
proof fn lemma_input_data_keys_unique(j: Json, d: Seq<(String, Vec<(String, Vec<(String, Json)>)>)>)
    requires
        json_keys_unique(j),
        input_data_matches(j, d),
    ensures
        input_data_keys_unique(d),
{
    let v = j->Object_0;
    assert(j == Json::Object(v));
    assert forall|a: int, b: int| 0 <= a < d.len() && 0 <= b < d.len() && a != b implies (#[trigger] d[a]).0@
        != (#[trigger] d[b]).0@ by {
        assert(v@[a].0@ != v@[b].0@);
    }
    assert forall|i: int| #![trigger d[i]] 0 <= i < d.len() implies keys_unique(d[i].1@) && forall|k: int|
        #![trigger d[i].1@[k]]
        0 <= k < d[i].1@.len() ==> keys_unique(d[i].1@[k].1@) && forall|s: int|
            #![trigger d[i].1@[k].1@[s]]
            0 <= s < d[i].1@[k].1@.len() ==> json_keys_unique(d[i].1@[k].1@[s].1) by {
        let vi = v@[i].1;
        assert(json_keys_unique(vi));
        assert(map_of_maps_matches(vi, d[i].1@));
        let a = d[i].1@;
        let w = vi->Object_0;
        assert(vi == Json::Object(w));
        assert forall|x: int, y: int| 0 <= x < a.len() && 0 <= y < a.len() && x != y implies (#[trigger] a[x]).0@
            != (#[trigger] a[y]).0@ by {
            assert(w@[x].0@ != w@[y].0@);
        }
        assert forall|k: int| #![trigger a[k]] 0 <= k < a.len() implies keys_unique(a[k].1@) && forall|s: int|
            #![trigger a[k].1@[s]]
            0 <= s < a[k].1@.len() ==> json_keys_unique(a[k].1@[s].1) by {
            assert(w@[k].1 == Json::Object(a[k].1));
            assert(json_keys_unique(w@[k].1));
            let e = a[k].1@;
            assert forall|s: int| #![trigger e[s]] 0 <= s < e.len() implies json_keys_unique(e[s].1) by {}
        }
    }
}

/// Requested outputs read from an object that holds each key once name each
/// entity once.
proof fn lemma_output_request_keys_unique(j: Json, d: Seq<(String, Vec<String>)>)
    requires
        json_keys_unique(j),
        output_request_matches(j, d),
    ensures
        keys_unique(d),
{
    let v = j->Object_0;
    assert(j == Json::Object(v));
    assert forall|a: int, b: int| 0 <= a < d.len() && 0 <= b < d.len() && a != b implies (#[trigger] d[a]).0@
        != (#[trigger] d[b]).0@ by {
        assert(v@[a].0@ != v@[b].0@);
    }
}

/// `j` is an array of strings.
pub open spec fn is_string_array(j: Json) -> bool {
    match j {
        Json::Array(v) => forall|k: int| 0 <= k < v@.len() ==> (#[trigger] v@[k]) is String,
        _ => false,
    }
}

/// `j` is an object of requested outputs: its values are arrays of strings.
pub open spec fn is_output_request(j: Json) -> bool {
    match j {
        Json::Object(v) => forall|i: int| #![trigger v@[i]] 0 <= i < v@.len() ==> is_string_array(v@[i].1),
        _ => false,
    }
}

/// `a` holds the strings of the array `j`, in order.
pub open spec fn strings_match(j: Json, a: Seq<String>) -> bool {
    match j {
        Json::Array(v) => v@.len() == a.len() && forall|k: int|
            0 <= k < a.len() ==> v@[k] == Json::String(#[trigger] a[k]),
        _ => false,
    }
}

/// `d` holds the requested outputs of `j`, entry for entry and in order.
pub open spec fn output_request_matches(j: Json, d: Seq<(String, Vec<String>)>) -> bool {
    match j {
        Json::Object(v) => v@.len() == d.len() && forall|i: int|
            0 <= i < d.len() ==> (#[trigger] d[i]).0 == v@[i].0 && strings_match(v@[i].1, d[i].1@),
        _ => false,
    }
}

/// The strings of the array `j`, where `j` is an array of strings.
fn string_array(j: Json) -> (r: Option<Vec<String>>)
    ensures
        r is Some <==> is_string_array(j),
        r matches Some(a) ==> strings_match(j, a@),
{
    match j {
        Json::Array(v0) => {
            let ghost orig = v0@;
            assert(j == Json::Array(v0));
            let mut v = v0;
            let mut out: Vec<String> = Vec::new();
            while v.len() > 0
                invariant
                    j == Json::Array(v0),
                    orig == v0@,
                    out@.len() <= orig.len(),
                    v@ == orig.skip(out@.len() as int),
                    forall|k: int| 0 <= k < out@.len() ==> orig[k] == Json::String(#[trigger] out@[k]),
                decreases v@.len(),
            {
                let ghost n = out@.len() as int;
                assert(v@[0] == orig[n]);
                let item = v.remove(0);
                match item {
                    Json::String(s) => {
                        out.push(s);
                        assert(v@ =~= orig.skip(out@.len() as int));
                    },
                    _ => {
                        assert(!(orig[n] is String));
                        return None;
                    },
                }
            }
            assert(out@.len() == orig.len());
            assert forall|k: int| 0 <= k < orig.len() implies (#[trigger] orig[k]) is String by {
                assert(orig[k] == Json::String(out@[k]));
            }
            Some(out)
        },
        _ => None,
    }
}

/// The requested outputs that `j` holds, where `j` is an object whose values
/// are arrays of strings.
pub fn output_request(j: Json) -> (r: Option<OutputRequest>)
    ensures
        r is Some <==> is_output_request(j),
        r matches Some(d) ==> output_request_matches(j, d@),
        r matches Some(d) ==> (json_keys_unique(j) ==> keys_unique(d@)),
{
    match j {
        Json::Object(v0) => {
            let ghost orig = v0@;
            assert(j == Json::Object(v0));
            let mut v = v0;
            let mut out: OutputRequest = Vec::new();
            while v.len() > 0
                invariant
                    j == Json::Object(v0),
                    orig == v0@,
                    out@.len() <= orig.len(),
                    v@ == orig.skip(out@.len() as int),
                    forall|i: int| 0 <= i < out@.len() ==> (#[trigger] out@[i]).0 == orig[i].0
                        && strings_match(orig[i].1, out@[i].1@) && is_string_array(orig[i].1),
                decreases v@.len(),
            {
                let ghost n = out@.len() as int;
                assert(v@[0] == orig[n]);
                let (key, value) = v.remove(0);
                match string_array(value) {
                    Some(attrs) => {
                        out.push((key, attrs));
                        assert(v@ =~= orig.skip(out@.len() as int));
                    },
                    None => {
                        assert(!is_string_array(orig[n].1));
                        proof {
                            assert(j->Object_0 == v0);
                            if is_output_request(j) {
                                assert(forall|i: int|
                                    #![trigger v0@[i]]
                                    0 <= i < v0@.len() ==> is_string_array(v0@[i].1));
                                assert(is_string_array(v0@[n].1));
                            }
                        }
                        return None;
                    },
                }
            }
            assert(out@.len() == orig.len());
            assert forall|i: int| 0 <= i < orig.len() implies is_string_array(#[trigger] orig[i].1) by {
                assert(out@[i].0 == orig[i].0);
            }
            proof {
                if json_keys_unique(j) {
                    assert(j->Object_0 == v0);
                    lemma_output_request_keys_unique(j, out@);
                }
            }
            Some(out)
        },
        _ => None,
    }
}


} // verus!
