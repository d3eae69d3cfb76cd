//! JSON values as the library holds them: answers, defaults and hook output.
//!
//! Numbers are kept as their JSON text. An object is a list of entries with
//! distinct keys, in insertion order.
use vstd::prelude::*;

use crate::text::{chars_of, push_char, push_str, str_eq};

verus! {

/// A JSON value.
#[derive(Debug)]
pub enum JsonValue {
    /// `null`
    Null,
    /// `true` or `false`
    Bool(bool),
    /// A number, as its JSON text.
    Number(String),
    /// A string.
    String(String),
    /// An array.
    Array(Vec<JsonValue>),
    /// An object.
    Object(JsonMap),
}

/// A JSON object: entries with distinct keys, in insertion order.
#[derive(Debug)]
pub struct JsonMap {
    entries: Vec<(String, JsonValue)>,
}

/// The mathematical model of a JSON value.
pub enum Json {
    Null,
    Bool(bool),
    Number(Seq<char>),
    Str(Seq<char>),
    Array(Seq<Json>),
    Object(Seq<(Seq<char>, Json)>),
}

/// The model of a JSON value.
pub open spec fn json_view(v: JsonValue) -> Json
    decreases v,
{
    match v {
        JsonValue::Null => Json::Null,
        JsonValue::Bool(b) => Json::Bool(b),
        JsonValue::Number(n) => Json::Number(n@),
        JsonValue::String(s) => Json::Str(s@),
        JsonValue::Array(items) => Json::Array(
            Seq::new(
                items@.len(),
                |i: int|
                    if 0 <= i < items@.len() {
                        json_view(items@[i])
                    } else {
                        Json::Null
                    },
            ),
        ),
        JsonValue::Object(m) => Json::Object(m.entries()),
    }
}

/// The model of a list of object entries.
pub open spec fn entries_view(entries: Seq<(String, JsonValue)>) -> Seq<(Seq<char>, Json)>
    decreases entries,
{
    Seq::new(
        entries.len(),
        |i: int|
            if 0 <= i < entries.len() {
                (entries[i].0@, json_view(entries[i].1))
            } else {
                (Seq::empty(), Json::Null)
            },
    )
}

impl View for JsonValue {
    type V = Json;

    open spec fn view(&self) -> Json {
        json_view(*self)
    }
}

/// The map described by a list of entries; a later entry wins over an
/// earlier one with the same key.
pub open spec fn map_of(entries: Seq<(Seq<char>, Json)>) -> Map<Seq<char>, Json>
    decreases entries.len(),
{
    if entries.len() == 0 {
        Map::empty()
    } else {
        map_of(entries.drop_last()).insert(entries.last().0, entries.last().1)
    }
}

/// The entries of a JSON value taken as an object: its map when it is one,
/// else the empty map.
pub open spec fn object_map(v: Json) -> Map<Seq<char>, Json> {
    match v {
        Json::Object(es) => map_of(es),
        _ => Map::empty(),
    }
}

/// No key occurs twice.
pub open spec fn keys_distinct(entries: Seq<(Seq<char>, Json)>) -> bool {
    forall|i: int, j: int| 0 <= i < j < entries.len() ==> #[trigger] entries[i].0 != #[trigger] entries[j].0
}

/// The value stored under `k` in a list of entries is held by an entry with key `k`.
pub proof fn lemma_map_of_contains(entries: Seq<(Seq<char>, Json)>, k: Seq<char>)
    ensures
        map_of(entries).contains_key(k) <==> exists|i: int| 0 <= i < entries.len() && #[trigger] entries[i].0 == k,
    decreases entries.len(),
{
    if entries.len() > 0 {
        let rest = entries.drop_last();
        lemma_map_of_contains(rest, k);
        if map_of(entries).contains_key(k) {
            if entries.last().0 != k {
                let i = choose|i: int| 0 <= i < rest.len() && #[trigger] rest[i].0 == k;
                assert(entries[i].0 == k);
            } else {
                assert(entries[entries.len() - 1].0 == k);
            }
        }
        if exists|i: int| 0 <= i < entries.len() && #[trigger] entries[i].0 == k {
            let i = choose|i: int| 0 <= i < entries.len() && #[trigger] entries[i].0 == k;
            if i < entries.len() - 1 {
                assert(rest[i].0 == k);
            }
        }
    }
}

/// With distinct keys, the entry holding `k` gives its value.
pub proof fn lemma_map_of_value(entries: Seq<(Seq<char>, Json)>, i: int)
    requires
        keys_distinct(entries),
        0 <= i < entries.len(),
    ensures
        map_of(entries).contains_key(entries[i].0),
        map_of(entries)[entries[i].0] == entries[i].1,
    decreases entries.len(),
{
    let rest = entries.drop_last();
    if i < entries.len() - 1 {
        assert(keys_distinct(rest)) by {
            assert forall|a: int, b: int| 0 <= a < b < rest.len() implies #[trigger] rest[a].0
                != #[trigger] rest[b].0 by {
                assert(entries[a].0 != entries[b].0);
            }
        }
        lemma_map_of_value(rest, i);
        assert(entries[i].0 != entries[entries.len() - 1].0);
    }
}

/// Replacing the value of an existing key updates the map at that key.
pub proof fn lemma_map_of_update(entries: Seq<(Seq<char>, Json)>, i: int, v: Json)
    requires
        keys_distinct(entries),
        0 <= i < entries.len(),
    ensures
        map_of(entries.update(i, (entries[i].0, v))) == map_of(entries).insert(entries[i].0, v),
        keys_distinct(entries.update(i, (entries[i].0, v))),
    decreases entries.len(),
{
    let k = entries[i].0;
    let upd = entries.update(i, (k, v));
    let rest = entries.drop_last();
    assert(keys_distinct(upd)) by {
        assert forall|a: int, b: int| 0 <= a < b < upd.len() implies #[trigger] upd[a].0
            != #[trigger] upd[b].0 by {
            assert(entries[a].0 != entries[b].0);
        }
    }
    if i == entries.len() - 1 {
        assert(upd.drop_last() =~= rest);
        lemma_map_of_contains(rest, k);
        assert(!map_of(rest).contains_key(k)) by {
            if map_of(rest).contains_key(k) {
                let j = choose|j: int| 0 <= j < rest.len() && #[trigger] rest[j].0 == k;
                assert(entries[j].0 == entries[i].0);
            }
        }
        assert(map_of(upd) =~= map_of(entries).insert(k, v));
    } else {
        assert(keys_distinct(rest)) by {
            assert forall|a: int, b: int| 0 <= a < b < rest.len() implies #[trigger] rest[a].0
                != #[trigger] rest[b].0 by {
                assert(entries[a].0 != entries[b].0);
            }
        }
        lemma_map_of_update(rest, i, v);
        assert(upd.drop_last() =~= rest.update(i, (k, v)));
        assert(upd.last() == entries.last());
        assert(entries.last().0 != k);
        assert(map_of(upd) =~= map_of(entries).insert(k, v));
    }
}

/// The model of the entries after appending one.
pub proof fn lemma_entries_view_push(entries: Seq<(String, JsonValue)>, e: (String, JsonValue))
    ensures
        entries_view(entries.push(e)) == entries_view(entries).push((e.0@, json_view(e.1))),
{
    assert(entries_view(entries.push(e)) =~= entries_view(entries).push((e.0@, json_view(e.1))));
}

/// The model of the entries after replacing one.
pub proof fn lemma_entries_view_update(entries: Seq<(String, JsonValue)>, i: int, e: (String, JsonValue))
    requires
        0 <= i < entries.len(),
    ensures
        entries_view(entries.update(i, e)) == entries_view(entries).update(i, (e.0@, json_view(e.1))),
{
    assert(entries_view(entries.update(i, e)) =~= entries_view(entries).update(
        i,
        (e.0@, json_view(e.1)),
    ));
}

/// Taking one more entry inserts it into the map.
pub proof fn lemma_map_of_take(entries: Seq<(Seq<char>, Json)>, n: int)
    requires
        0 <= n < entries.len(),
    ensures
        map_of(entries.take(n + 1)) == map_of(entries.take(n)).insert(entries[n].0, entries[n].1),
{
    assert(entries.take(n + 1).drop_last() =~= entries.take(n));
}

/// A copy of a JSON value.
#[verifier::loop_isolation(false)]
pub fn clone_json(v: &JsonValue) -> (r: JsonValue)
    ensures
        r@ == v@,
    decreases v,
{
    match v {
        JsonValue::Null => JsonValue::Null,
        JsonValue::Bool(b) => JsonValue::Bool(*b),
        JsonValue::Number(n) => JsonValue::Number(n.clone()),
        JsonValue::String(t) => JsonValue::String(t.clone()),
        JsonValue::Array(items) => {
            let mut out: Vec<JsonValue> = Vec::new();
            let mut i: usize = 0;
            while i < items.len()
                invariant
                    i <= items@.len(),
                    out@.len() == i,
                    forall|j: int| 0 <= j < i ==> json_view(#[trigger] out@[j]) == json_view(items@[j]),
                decreases items@.len() - i,
            {
                proof {
                    assert(decreases_to!(*v => items));
                    vstd::std_specs::vec::axiom_vec_index_decreases(*items, i as int);
                }
                let c = clone_json(&items[i]);
                out.push(c);
                i += 1;
            }
            let r = JsonValue::Array(out);
            proof {
                let x = json_view(r)->Array_0;
                let y = json_view(*v)->Array_0;
                assert(x.len() == y.len());
                assert forall|k: int| 0 <= k < x.len() implies x[k] == y[k] by {
                    assert(x[k] == json_view(out@[k]));
                    assert(y[k] == json_view(items@[k]));
                }
                assert(x =~= y);
            }
            r
        },
        JsonValue::Object(m) => {
            proof {
                use_type_invariant(m);
            }
            let entries = &m.entries;
            let mut out: Vec<(String, JsonValue)> = Vec::new();
            let mut i: usize = 0;
            while i < entries.len()
                invariant
                    i <= entries@.len(),
                    out@.len() == i,
                    forall|j: int| 0 <= j < i ==> (#[trigger] out@[j]).0@ == entries@[j].0@ && json_view(
                        out@[j].1,
                    ) == json_view(entries@[j].1),
                decreases entries@.len() - i,
            {
                proof {
                    assert(decreases_to!(*v => m.entries));
                    vstd::std_specs::vec::axiom_vec_index_decreases(*entries, i as int);
                    assert(decreases_to!(entries[i as int] => entries[i as int].1));
                }
                let c = clone_json(&entries[i].1);
                let k = entries[i].0.clone();
                out.push((k, c));
                i += 1;
            }
            proof {
                assert(entries_view(out@) =~= entries_view(entries@));
            }
            let r = JsonMap { entries: out };
            assert(r.entries() == m.entries());
            JsonValue::Object(r)
        },
    }
}

/// A copy of a JSON object: the same entries in the same order.
pub fn clone_map(m: &JsonMap) -> (r: JsonMap)
    ensures
        r.entries() == m.entries(),
        r.map() == m.map(),
{
    proof {
        use_type_invariant(m);
    }
    let n = m.len();
    let mut out: Vec<(String, JsonValue)> = Vec::new();
    let mut i: usize = 0;
    while i < n
        invariant
            i <= n,
            n == m.entries().len(),
            entries_view(out@) == m.entries().take(i as int),
        decreases n - i,
    {
        let k = m.key_at(i).clone();
        let v = clone_json(m.value_at(i));
        let ghost before = out@;
        out.push((k, v));
        proof {
            assert(entries_view(out@) =~= entries_view(before).push((k@, v@)));
            assert(m.entries().take(i + 1) =~= m.entries().take(i as int).push(m.entries()[i as int]));
        }
        i += 1;
    }
    assert(m.entries().take(n as int) =~= m.entries());
    let r = JsonMap { entries: out };
    r
}

/// Sets every entry of `extra`, in order, on the object `base`: keys of
/// `extra` win over keys already in `base`.
fn object_extend(base: &mut Vec<(String, JsonValue)>, extra: Vec<(String, JsonValue)>)
    requires
        keys_distinct(entries_view(old(base)@)),
    ensures
        keys_distinct(entries_view(final(base)@)),
        map_of(entries_view(final(base)@)) == map_of(entries_view(old(base)@)).union_prefer_right(
            map_of(entries_view(extra@)),
        ),
{
    let ghost orig = extra@;
    let ghost ov = entries_view(orig);
    let ghost start = map_of(entries_view(base@));
    let mut extra = extra;
    let total = extra.len();
    assert(orig.len() == total);
    let mut n: usize = 0;
    assert(ov.take(0) =~= Seq::<(Seq<char>, Json)>::empty());
    assert(start.union_prefer_right(Map::empty()) =~= start);
    assert(orig.skip(0) =~= orig);
    while extra.len() > 0
        invariant
            n <= orig.len(),
            orig.len() <= usize::MAX,
            extra@ == orig.skip(n as int),
            ov == entries_view(orig),
            keys_distinct(entries_view(base@)),
            map_of(entries_view(base@)) == start.union_prefer_right(map_of(ov.take(n as int))),
        decreases extra@.len(),
    {
        let ghost before = extra@;
        let (k, v) = extra.remove(0);
        proof {
            assert(before[0] == orig[n as int]);
            assert(ov[n as int] == (k@, v@));
            lemma_map_of_take(ov, n as int);
            assert(start.union_prefer_right(map_of(ov.take(n + 1))) =~= start.union_prefer_right(
                map_of(ov.take(n as int)),
            ).insert(k@, v@));
            assert(extra@ =~= orig.skip(n + 1));
        }
        object_insert(base, k, v);
        n += 1;
    }
    assert(ov.take(n as int) =~= ov);
}

/// Looks up `key` among the entries of an object.
fn object_get<'a>(entries: &'a Vec<(String, JsonValue)>, key: &str) -> (r: Option<&'a JsonValue>)
    requires
        keys_distinct(entries_view(entries@)),
    ensures
        match r {
            Some(v) => map_of(entries_view(entries@)).contains_key(key@) && map_of(
                entries_view(entries@),
            )[key@] == v@,
            None => !map_of(entries_view(entries@)).contains_key(key@),
        },
{
    let ghost ev = entries_view(entries@);
    let mut i: usize = 0;
    while i < entries.len()
        invariant
            i <= entries@.len(),
            ev == entries_view(entries@),
            keys_distinct(ev),
            forall|j: int| 0 <= j < i ==> ev[j].0 != key@,
        decreases entries@.len() - i,
    {
        if str_eq(entries[i].0.as_str(), key) {
            proof {
                assert(ev[i as int].0 == key@);
                lemma_map_of_value(ev, i as int);
            }
            return Some(&entries[i].1);
        }
        i += 1;
    }
    proof {
        lemma_map_of_contains(ev, key@);
    }
    None
}

/// Sets `key` to `value` in an object: an existing entry keeps its place,
/// a new key is appended.
fn object_insert(entries: &mut Vec<(String, JsonValue)>, key: String, value: JsonValue)
    requires
        keys_distinct(entries_view(old(entries)@)),
    ensures
        keys_distinct(entries_view(final(entries)@)),
        map_of(entries_view(final(entries)@)) == map_of(entries_view(old(entries)@)).insert(
            key@,
            value@,
        ),
{
    let ghost ev = entries_view(entries@);
    let mut i: usize = 0;
    while i < entries.len()
        invariant
            i <= entries@.len(),
            entries@ == old(entries)@,
            ev == entries_view(entries@),
            keys_distinct(ev),
            forall|j: int| 0 <= j < i ==> ev[j].0 != key@,
        decreases entries@.len() - i,
    {
        if str_eq(entries[i].0.as_str(), key.as_str()) {
            let ghost old_entries = entries@;
            let ghost vv = value@;
            proof {
                assert(ev[i as int].0 == key@);
                lemma_map_of_update(ev, i as int, vv);
                lemma_entries_view_update(old_entries, i as int, (key, value));
            }
            entries.set(i, (key, value));
            return;
        }
        i += 1;
    }
    let ghost old_entries = entries@;
    let ghost kk = key@;
    let ghost vv = value@;
    proof {
        lemma_entries_view_push(old_entries, (key, value));
    }
    entries.push((key, value));
    proof {
        let nv = entries_view(entries@);
        assert(nv == ev.push((kk, vv)));
        assert(nv.drop_last() =~= ev);
        assert(keys_distinct(nv)) by {
            assert forall|a: int, b: int| 0 <= a < b < nv.len() implies #[trigger] nv[a].0
                != #[trigger] nv[b].0 by {
                if b == nv.len() - 1 {
                    assert(ev[a].0 != kk);
                } else {
                    assert(ev[a].0 != ev[b].0);
                }
            }
        }
    }
}

impl JsonMap {
    /// The entries with distinct keys.
    #[verifier::type_invariant]
    spec fn distinct(self) -> bool {
        keys_distinct(entries_view(self.entries@))
    }

    /// The entries of the object, in order.
    pub closed spec fn entries(&self) -> Seq<(Seq<char>, Json)>
        decreases self,
    {
        entries_view(self.entries@)
    }

    /// The object as a map from keys to values.
    pub open spec fn map(&self) -> Map<Seq<char>, Json> {
        map_of(self.entries())
    }

    /// An empty object.
    pub fn new() -> (r: Self)
        ensures
            r.entries() == Seq::<(Seq<char>, Json)>::empty(),
            r.map() == Map::<Seq<char>, Json>::empty(),
    {
        let r = JsonMap { entries: Vec::new() };
        assert(r.entries() =~= Seq::<(Seq<char>, Json)>::empty());
        r
    }

    /// Number of entries.
    pub fn len(&self) -> (r: usize)
        ensures
            r == self.entries().len(),
    {
        self.entries.len()
    }

    /// The key of the `i`-th entry.
    pub fn key_at(&self, i: usize) -> (r: &String)
        requires
            i < self.entries().len(),
        ensures
            r@ == self.entries()[i as int].0,
            self.map().contains_key(r@),
    {
        proof {
            use_type_invariant(self);
            lemma_map_of_value(self.entries(), i as int);
        }
        &self.entries[i].0
    }

    /// The value of the `i`-th entry.
    pub fn value_at(&self, i: usize) -> (r: &JsonValue)
        requires
            i < self.entries().len(),
        ensures
            r@ == self.entries()[i as int].1,
            self.map()[self.entries()[i as int].0] == r@,
    {
        proof {
            use_type_invariant(self);
            lemma_map_of_value(self.entries(), i as int);
        }
        &self.entries[i].1
    }

    /// The value stored under `key`, if any (`Map::get`).
    pub fn get(&self, key: &str) -> (r: Option<&JsonValue>)
        ensures
            match r {
                Some(v) => self.map().contains_key(key@) && self.map()[key@] == v@,
                None => !self.map().contains_key(key@),
            },
    {
        proof {
            use_type_invariant(self);
        }
        object_get(&self.entries, key)
    }

    /// Whether `key` is present.
    pub fn contains_key(&self, key: &str) -> (r: bool)
        ensures
            r == self.map().contains_key(key@),
    {
        self.get(key).is_some()
    }

    /// Sets `key` to `value` (`Map::insert`): an existing entry keeps its
    /// place, a new key is appended.
    pub fn insert(&mut self, key: String, value: JsonValue)
        ensures
            final(self).map() == old(self).map().insert(key@, value@),
    {
        proof {
            use_type_invariant(&*self);
        }
        let mut entries: Vec<(String, JsonValue)> = Vec::new();
        std::mem::swap(&mut entries, &mut self.entries);
        object_insert(&mut entries, key, value);
        self.entries = entries;
    }

    /// Sets every entry of `extra`, in order (`Map::extend`): keys of `extra`
    /// win over keys already present.
    pub fn extend(&mut self, extra: JsonMap)
        ensures
            final(self).map() == old(self).map().union_prefer_right(extra.map()),
    {
        proof {
            use_type_invariant(&*self);
        }
        let JsonMap { entries: extra_entries } = extra;
        let mut entries: Vec<(String, JsonValue)> = Vec::new();
        std::mem::swap(&mut entries, &mut self.entries);
        object_extend(&mut entries, extra_entries);
        self.entries = entries;
    }
}

impl JsonValue {
    /// The value is `null`.
    pub fn is_null(&self) -> (r: bool)
        ensures
            r == (self@ is Null),
    {
        match self {
            JsonValue::Null => true,
            _ => false,
        }
    }

    /// The boolean held, if the value is a boolean.
    pub fn as_bool(&self) -> (r: Option<bool>)
        ensures
            match self@ {
                Json::Bool(b) => r == Some(b),
                _ => r is None,
            },
    {
        match self {
            JsonValue::Bool(b) => Some(*b),
            _ => None,
        }
    }

    /// The string held, if the value is a string.
    pub fn as_str(&self) -> (r: Option<&str>)
        ensures
            match self@ {
                Json::Str(s) => r is Some && r->0@ == s,
                _ => r is None,
            },
    {
        match self {
            JsonValue::String(s) => Some(s.as_str()),
            _ => None,
        }
    }

    /// The value is an object.
    pub fn is_object(&self) -> (r: bool)
        ensures
            r == (self@ is Object),
    {
        match self {
            JsonValue::Object(_) => true,
            _ => false,
        }
    }

    /// The value is an array.
    pub fn is_array(&self) -> (r: bool)
        ensures
            r == (self@ is Array),
    {
        match self {
            JsonValue::Array(_) => true,
            _ => false,
        }
    }

    /// The value stored under `key` when this value is an object holding it
    /// (`serde_json::Value::get` with a string key).
    pub fn get(&self, key: &str) -> (r: Option<&JsonValue>)
        ensures
            match self@ {
                Json::Object(es) => match r {
                    Some(v) => map_of(es).contains_key(key@) && map_of(es)[key@] == v@,
                    None => !map_of(es).contains_key(key@),
                },
                _ => r is None,
            },
    {
        match self {
            JsonValue::Object(m) => m.get(key),
            _ => None,
        }
    }
}

// ---------------------------------------------------------------------------
// JSON text
// ---------------------------------------------------------------------------

/// The lower-case hexadecimal digit of `d`, for `d` below 16.
pub open spec fn hex_digit(d: int) -> char {
    if d == 0 {
        '0'
    } else if d == 1 {
        '1'
    } else if d == 2 {
        '2'
    } else if d == 3 {
        '3'
    } else if d == 4 {
        '4'
    } else if d == 5 {
        '5'
    } else if d == 6 {
        '6'
    } else if d == 7 {
        '7'
    } else if d == 8 {
        '8'
    } else if d == 9 {
        '9'
    } else if d == 10 {
        'a'
    } else if d == 11 {
        'b'
    } else if d == 12 {
        'c'
    } else if d == 13 {
        'd'
    } else if d == 14 {
        'e'
    } else {
        'f'
    }
}

/// A character as it is written inside a JSON string literal: quotes and
/// backslashes are escaped, control characters are written as `\u00XX`.
pub open spec fn escaped_char(c: char) -> Seq<char> {
    if c == '"' {
        seq!['\\', '"']
    } else if c == '\\' {
        seq!['\\', '\\']
    } else if (c as int) < 32 {
        seq!['\\', 'u', '0', '0', hex_digit((c as int) / 16), hex_digit((c as int) % 16)]
    } else {
        seq![c]
    }
}

/// A text with each character escaped for a JSON string literal.
pub open spec fn escaped(s: Seq<char>) -> Seq<char>
    decreases s.len(),
{
    if s.len() == 0 {
        Seq::empty()
    } else {
        escaped(s.drop_last()) + escaped_char(s.last())
    }
}

/// A JSON string literal of a text.
pub open spec fn quoted(s: Seq<char>) -> Seq<char> {
    seq!['"'] + escaped(s) + seq!['"']
}

/// Texts joined with commas.
pub open spec fn joined(ts: Seq<Seq<char>>) -> Seq<char>
    decreases ts.len(),
{
    if ts.len() == 0 {
        Seq::empty()
    } else if ts.len() == 1 {
        ts[0]
    } else {
        joined(ts.drop_last()) + seq![','] + ts.last()
    }
}

/// The texts of the items of an array.
pub open spec fn item_texts(items: Seq<Json>) -> Seq<Seq<char>>
    decreases items,
{
    Seq::new(
        items.len(),
        |i: int|
            if 0 <= i < items.len() {
                json_text(items[i])
            } else {
                Seq::empty()
            },
    )
}

/// The texts `"key":value` of the entries of an object.
pub open spec fn entry_texts(es: Seq<(Seq<char>, Json)>) -> Seq<Seq<char>>
    decreases es,
{
    Seq::new(
        es.len(),
        |i: int|
            if 0 <= i < es.len() {
                quoted(es[i].0) + seq![':'] + json_text(es[i].1)
            } else {
                Seq::empty()
            },
    )
}

/// The compact JSON text of a value: no white space, object entries in
/// their order, numbers as their text.
pub open spec fn json_text(v: Json) -> Seq<char>
    decreases v,
{
    match v {
        Json::Null => seq!['n', 'u', 'l', 'l'],
        Json::Bool(b) => if b {
            seq!['t', 'r', 'u', 'e']
        } else {
            seq!['f', 'a', 'l', 's', 'e']
        },
        Json::Number(n) => n,
        Json::Str(t) => quoted(t),
        Json::Array(items) => seq!['['] + joined(item_texts(items)) + seq![']'],
        Json::Object(es) => seq!['{'] + joined(entry_texts(es)) + seq!['}'],
    }
}

/// The lower-case hexadecimal digit of `d`.
fn hex_char(d: u32) -> (r: char)
    requires
        d < 16,
    ensures
        r == hex_digit(d as int),
{
    if d == 0 {
        '0'
    } else if d == 1 {
        '1'
    } else if d == 2 {
        '2'
    } else if d == 3 {
        '3'
    } else if d == 4 {
        '4'
    } else if d == 5 {
        '5'
    } else if d == 6 {
        '6'
    } else if d == 7 {
        '7'
    } else if d == 8 {
        '8'
    } else if d == 9 {
        '9'
    } else if d == 10 {
        'a'
    } else if d == 11 {
        'b'
    } else if d == 12 {
        'c'
    } else if d == 13 {
        'd'
    } else if d == 14 {
        'e'
    } else {
        'f'
    }
}

/// Appends a character as it is written inside a JSON string literal.
fn push_escaped_char(out: &mut String, c: char)
    ensures
        final(out)@ == old(out)@ + escaped_char(c),
{
    let ghost start = out@;
    if c == '"' {
        push_char(out, '\\');
        push_char(out, '"');
        assert(out@ =~= start + escaped_char(c));
    } else if c == '\\' {
        push_char(out, '\\');
        push_char(out, '\\');
        assert(out@ =~= start + escaped_char(c));
    } else if (c as u32) < 32 {
        let code = c as u32;
        push_char(out, '\\');
        push_char(out, 'u');
        push_char(out, '0');
        push_char(out, '0');
        push_char(out, hex_char(code / 16));
        push_char(out, hex_char(code % 16));
        assert(out@ =~= start + escaped_char(c));
    } else {
        push_char(out, c);
        assert(out@ =~= start + escaped_char(c));
    }
}

/// Appends the JSON string literal of a text.
fn push_quoted(out: &mut String, s: &str)
    ensures
        final(out)@ == old(out)@ + quoted(s@),
{
    let ghost start = out@;
    let cs = chars_of(s);
    push_char(out, '"');
    let mut i: usize = 0;
    while i < cs.len()
        invariant
            i <= cs@.len(),
            cs@ == s@,
            out@ == start + seq!['"'] + escaped(cs@.take(i as int)),
        decreases cs@.len() - i,
    {
        push_escaped_char(out, cs[i]);
        proof {
            assert(cs@.take(i + 1).drop_last() =~= cs@.take(i as int));
        }
        i += 1;
    }
    push_char(out, '"');
    assert(cs@.take(cs@.len() as int) =~= cs@);
    assert(out@ =~= start + quoted(s@));
}

/// Joining one more text adds a comma before it, unless it is the first.
proof fn lemma_joined_take(ts: Seq<Seq<char>>, i: int)
    requires
        0 <= i < ts.len(),
    ensures
        joined(ts.take(i + 1)) == if i == 0 {
            ts[0]
        } else {
            joined(ts.take(i)) + seq![','] + ts[i]
        },
{
    assert(ts.take(i + 1).drop_last() =~= ts.take(i));
    if i == 0 {
        assert(ts.take(1).len() == 1);
    }
}

/// Appends the compact JSON text of a value.
#[verifier::loop_isolation(false)]
#[verifier::rlimit(60)]
pub fn write_json(v: &JsonValue, out: &mut String)
    ensures
        final(out)@ == old(out)@ + json_text(v@),
    decreases v,
{
    let ghost start = out@;
    match v {
        JsonValue::Null => {
            push_str(out, "null");
            proof {
                reveal_strlit("null");
            }
            assert(out@ =~= start + json_text(v@));
        },
        JsonValue::Bool(b) => {
            if *b {
                push_str(out, "true");
                proof {
                    reveal_strlit("true");
                }
            } else {
                push_str(out, "false");
                proof {
                    reveal_strlit("false");
                }
            }
            assert(out@ =~= start + json_text(v@));
        },
        JsonValue::Number(n) => {
            push_str(out, n.as_str());
        },
        JsonValue::String(t) => {
            push_quoted(out, t.as_str());
        },
        JsonValue::Array(items) => {
            let ghost texts = Seq::new(items@.len(), |j: int| json_text(json_view(items@[j])));
            push_char(out, '[');
            let ghost open = out@;
            let mut i: usize = 0;
            while i < items.len()
                invariant
                    i <= items@.len(),
                    texts == Seq::new(items@.len(), |j: int| json_text(json_view(items@[j]))),
                    out@ == open + joined(texts.take(i as int)),
                decreases items@.len() - i,
            {
                proof {
                    assert(decreases_to!(*v => items));
                    vstd::std_specs::vec::axiom_vec_index_decreases(*items, i as int);
                    lemma_joined_take(texts, i as int);
                }
                if i > 0 {
                    push_char(out, ',');
                }
                write_json(&items[i], out);
                i += 1;
            }
            push_char(out, ']');
            proof {
                assert(texts.take(items@.len() as int) =~= texts);
                let x = json_view(*v)->Array_0;
                assert(item_texts(x) =~= texts);
                assert(v@ == Json::Array(x));
                assert(out@ =~= start + json_text(v@));
            }
        },
        JsonValue::Object(m) => {
            let entries = &m.entries;
            let ghost texts = Seq::new(
                entries@.len(),
                |j: int| quoted(entries@[j].0@) + seq![':'] + json_text(json_view(entries@[j].1)),
            );
            push_char(out, '{');
            let ghost open = out@;
            let mut i: usize = 0;
            while i < entries.len()
                invariant
                    i <= entries@.len(),
                    texts == Seq::new(
                        entries@.len(),
                        |j: int| quoted(entries@[j].0@) + seq![':'] + json_text(json_view(entries@[j].1)),
                    ),
                    out@ == open + joined(texts.take(i as int)),
                decreases entries@.len() - i,
            {
                proof {
                    assert(decreases_to!(*v => m.entries));
                    vstd::std_specs::vec::axiom_vec_index_decreases(*entries, i as int);
                    assert(decreases_to!(entries[i as int] => entries[i as int].1));
                    lemma_joined_take(texts, i as int);
                }
                let ghost before = out@;
                if i > 0 {
                    push_char(out, ',');
                }
                push_quoted(out, entries[i].0.as_str());
                push_char(out, ':');
                write_json(&entries[i].1, out);
                proof {
                    if i > 0 {
                        assert(out@ =~= before + seq![','] + texts[i as int]);
                    } else {
                        assert(out@ =~= before + texts[i as int]);
                    }
                }
                i += 1;
            }
            push_char(out, '}');
            proof {
                assert(texts.take(entries@.len() as int) =~= texts);
                let es = m.entries();
                assert(v@ == Json::Object(es));
                assert(es == entries_view(entries@));
                assert(entry_texts(es) =~= texts);
                assert(out@ =~= start + json_text(v@));
            }
        },
    }
}

/// The compact JSON text of a value.
pub fn to_json_text(v: &JsonValue) -> (r: String)
    ensures
        r@ == json_text(v@),
{
    let mut out = String::new();
    write_json(v, &mut out);
    assert(out@ =~= json_text(v@));
    out
}

/// What `serde_json` writes, compactly, for the JSON text `text` once it
/// has parsed it (`None` when `text` is no JSON): a function of the text.
pub uninterp spec fn serde_compact(text: Seq<char>) -> Option<Seq<char>>;

/// What `serde_json::to_string_pretty` writes for the JSON text `text`
/// once it has parsed it (`None` when `text` is no JSON, or writing
/// fails): a function of the text.
pub uninterp spec fn serde_pretty(text: Seq<char>) -> Option<Seq<char>>;

/// The text an optional string holds.
pub open spec fn optional_text(s: Option<String>) -> Option<Seq<char>> {
    match s {
        Some(t) => Some(t@),
        None => None,
    }
}

/// `serde_json::from_str` into a `serde_json::Value`, then its `to_string`.
#[verifier::external_body]
fn serde_compact_of(text: &str) -> (r: Option<String>)
    ensures
        optional_text(r) == serde_compact(text@),
{
    match serde_json::from_str::<serde_json::Value>(text) {
        Ok(v) => Some(v.to_string()),
        Err(_) => None,
    }
}

/// `serde_json::from_str` into a `serde_json::Value`, then
/// `serde_json::to_string_pretty`.
#[verifier::external_body]
fn serde_pretty_of(text: &str) -> (r: Option<String>)
    ensures
        optional_text(r) == serde_pretty(text@),
{
    match serde_json::from_str::<serde_json::Value>(text) {
        Ok(v) => serde_json::to_string_pretty(&v).ok(),
        Err(_) => None,
    }
}

/// The text of a value as `serde_json` writes it compactly; the value's own
/// compact text when `serde_json` does not take it (a number whose text is
/// no JSON number).
pub open spec fn compact_text(v: Json) -> Seq<char> {
    match serde_compact(json_text(v)) {
        Some(t) => t,
        None => json_text(v),
    }
}

/// The text of a value as `serde_json` writes it compactly.
pub fn compact_json(v: &JsonValue) -> (r: String)
    ensures
        r@ == compact_text(v@),
{
    let own = to_json_text(v);
    match serde_compact_of(own.as_str()) {
        Some(t) => t,
        None => own,
    }
}

/// The text of a value as `serde_json` pretty-prints it; empty when it
/// cannot.
pub open spec fn pretty_text(v: Json) -> Seq<char> {
    match serde_pretty(json_text(v)) {
        Some(t) => t,
        None => Seq::empty(),
    }
}

/// The text of a value as `serde_json` pretty-prints it.
pub fn pretty_json(v: &JsonValue) -> (r: String)
    ensures
        r@ == pretty_text(v@),
{
    let own = to_json_text(v);
    match serde_pretty_of(own.as_str()) {
        Some(t) => t,
        None => String::new(),
    }
}

} // verus!
