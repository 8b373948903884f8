//! A JSON document model: the payloads that continuity surfaces read and write, with a
//! mathematical view, lookups that behave as `serde_json`'s indexing does (a missing key
//! or a non-object reads as `null`), and verified builders.
use vstd::prelude::*;
use crate::text::{chars_eq, chars_of, non_empty_trimmed, trim_str};

verus! {

/// A JSON value. Numbers are integers; objects keep their entries in insertion order and
/// hold each key at most once.
#[derive(Debug, PartialEq)]
pub enum Json {
    Null,
    Bool(bool),
    Number(i128),
    Str(String),
    Array(Vec<Json>),
    Object(Vec<(String, Json)>),
}

/// The mathematical form of a JSON value.
pub enum JsonView {
    Null,
    Bool(bool),
    Number(int),
    Str(Seq<char>),
    Array(Seq<JsonView>),
    Object(Seq<(Seq<char>, JsonView)>),
}

pub open spec fn json_view(j: Json) -> JsonView
    decreases j,
{
    match j {
        Json::Null => JsonView::Null,
        Json::Bool(b) => JsonView::Bool(b),
        Json::Number(n) => JsonView::Number(n as int),
        Json::Str(s) => JsonView::Str(s@),
        Json::Array(v) => JsonView::Array(items_view(v@)),
        Json::Object(v) => JsonView::Object(entries_view(v@)),
    }
}

pub open spec fn items_view(s: Seq<Json>) -> Seq<JsonView>
    decreases s,
{
    if s.len() == 0 {
        Seq::empty()
    } else {
        items_view(s.subrange(0, s.len() - 1)).push(json_view(s[s.len() - 1]))
    }
}

pub open spec fn entries_view(s: Seq<(String, Json)>) -> Seq<(Seq<char>, JsonView)>
    decreases s,
{
    if s.len() == 0 {
        Seq::empty()
    } else {
        entries_view(s.subrange(0, s.len() - 1)).push(
            (s[s.len() - 1].0@, json_view(s[s.len() - 1].1)),
        )
    }
}

impl View for Json {
    type V = JsonView;

    open spec fn view(&self) -> JsonView {
        json_view(*self)
    }
}

/// Appending an item appends its view.
pub proof fn lemma_items_push(s: Seq<Json>, x: Json)
    ensures
        items_view(s.push(x)) == items_view(s).push(json_view(x)),
{
    assert(s.push(x).subrange(0, s.len() as int) =~= s);
}

/// Appending an entry appends its view.
pub proof fn lemma_entries_push(s: Seq<(String, Json)>, e: (String, Json))
    ensures
        entries_view(s.push(e)) == entries_view(s).push((e.0@, json_view(e.1))),
{
    assert(s.push(e).subrange(0, s.len() as int) =~= s);
}

/// The views have the length of what they view, and are taken element by element.
pub proof fn lemma_items_view(s: Seq<Json>)
    ensures
        items_view(s).len() == s.len(),
        forall|k: int| 0 <= k < s.len() ==> #[trigger] items_view(s)[k] == json_view(s[k]),
    decreases s.len(),
{
    if s.len() > 0 {
        let p = s.subrange(0, s.len() - 1);
        lemma_items_view(p);
        assert forall|k: int| 0 <= k < s.len() implies #[trigger] items_view(s)[k] == json_view(
            s[k],
        ) by {
            if k < s.len() - 1 {
                assert(items_view(p)[k] == json_view(p[k]));
            }
        }
    }
}

pub proof fn lemma_entries_view(s: Seq<(String, Json)>)
    ensures
        entries_view(s).len() == s.len(),
        forall|k: int|
            0 <= k < s.len() ==> #[trigger] entries_view(s)[k] == (s[k].0@, json_view(s[k].1)),
    decreases s.len(),
{
    if s.len() > 0 {
        let p = s.subrange(0, s.len() - 1);
        lemma_entries_view(p);
        assert forall|k: int| 0 <= k < s.len() implies #[trigger] entries_view(s)[k] == (
            s[k].0@,
            json_view(s[k].1),
        ) by {
            if k < s.len() - 1 {
                assert(entries_view(p)[k] == (p[k].0@, json_view(p[k].1)));
            }
        }
    }
}

/// The value stored under `key` among the entries `es[..n]`: the first entry with that key.
pub open spec fn entries_lookup(es: Seq<(Seq<char>, JsonView)>, key: Seq<char>, n: int) -> Option<JsonView>
    decreases n,
{
    if n <= 0 {
        None
    } else {
        match entries_lookup(es, key, n - 1) {
            Some(v) => Some(v),
            None => if es[n - 1].0 == key {
                Some(es[n - 1].1)
            } else {
                None
            },
        }
    }
}

/// `value[key]`: the value under `key` of an object, and `null` for a missing key or a
/// value that is not an object.
pub open spec fn field(v: JsonView, key: Seq<char>) -> JsonView {
    match v {
        JsonView::Object(es) => match entries_lookup(es, key, es.len() as int) {
            Some(x) => x,
            None => JsonView::Null,
        },
        _ => JsonView::Null,
    }
}

/// `value.as_str()`.
pub open spec fn as_str(v: JsonView) -> Option<Seq<char>> {
    match v {
        JsonView::Str(s) => Some(s),
        _ => None,
    }
}

/// `value.as_str()` trimmed, when that leaves text.
pub open spec fn as_text(v: JsonView) -> Option<Seq<char>> {
    match as_str(v) {
        Some(s) => non_empty_trimmed(s),
        None => None,
    }
}

/// `value.as_u64()`.
pub open spec fn as_u64(v: JsonView) -> Option<u64> {
    match v {
        JsonView::Number(n) => if 0 <= n <= u64::MAX {
            Some(n as u64)
        } else {
            None
        },
        _ => None,
    }
}

/// `value.as_bool()`.
pub open spec fn as_bool(v: JsonView) -> Option<bool> {
    match v {
        JsonView::Bool(b) => Some(b),
        _ => None,
    }
}

/// `value.as_array()`.
pub open spec fn as_array(v: JsonView) -> Option<Seq<JsonView>> {
    match v {
        JsonView::Array(items) => Some(items),
        _ => None,
    }
}

/// An optional text as a JSON string or `null`.
pub open spec fn opt_str_view(o: Option<Seq<char>>) -> JsonView {
    match o {
        Some(s) => JsonView::Str(s),
        None => JsonView::Null,
    }
}

/// An optional count as a JSON number or `null`.
pub open spec fn opt_u64_view(o: Option<u64>) -> JsonView {
    match o {
        Some(n) => JsonView::Number(n as int),
        None => JsonView::Null,
    }
}

/// A copy of a JSON value.
pub fn clone_json(j: &Json) -> (r: Json)
    ensures
        r@ == j@,
    decreases j,
{
    match j {
        Json::Null => Json::Null,
        Json::Bool(b) => Json::Bool(*b),
        Json::Number(n) => Json::Number(*n),
        Json::Str(s) => Json::Str(s.clone()),
        Json::Array(v) => {
            let mut out: Vec<Json> = Vec::new();
            let mut i: usize = 0;
            while i < v.len()
                invariant
                    i <= v@.len(),
                    *j == Json::Array(*v),
                    items_view(out@) == items_view(v@.subrange(0, i as int)),
                decreases v@.len() - i,
            {
                proof {
                    let jj = *j;
                    assert(decreases_to!(jj => jj->Array_0));
                    assert(decreases_to!(*v => v@));
                    assert(decreases_to!(v@ => v@[i as int]));
                }
                let c = clone_json(&v[i]);
                proof {
                    lemma_items_push(out@, c);
                    lemma_items_push(v@.subrange(0, i as int), v@[i as int]);
                    assert(v@.subrange(0, i as int).push(v@[i as int]) =~= v@.subrange(0, i + 1));
                }
                out.push(c);
                i = i + 1;
            }
            assert(v@.subrange(0, v@.len() as int) =~= v@);
            Json::Array(out)
        },
        Json::Object(v) => {
            let mut out: Vec<(String, Json)> = Vec::new();
            let mut i: usize = 0;
            while i < v.len()
                invariant
                    i <= v@.len(),
                    *j == Json::Object(*v),
                    entries_view(out@) == entries_view(v@.subrange(0, i as int)),
                decreases v@.len() - i,
            {
                proof {
                    let jj = *j;
                    assert(decreases_to!(jj => jj->Object_0));
                    assert(decreases_to!(*v => v@));
                    assert(decreases_to!(v@ => v@[i as int]));
                    assert(decreases_to!(v@[i as int] => v@[i as int].1));
                }
                let e = (v[i].0.clone(), clone_json(&v[i].1));
                proof {
                    lemma_entries_push(out@, e);
                    lemma_entries_push(v@.subrange(0, i as int), v@[i as int]);
                    assert(v@.subrange(0, i as int).push(v@[i as int]) =~= v@.subrange(0, i + 1));
                }
                out.push(e);
                i = i + 1;
            }
            assert(v@.subrange(0, v@.len() as int) =~= v@);
            Json::Object(out)
        },
    }
}


/// The value under `key` in an object's entries, if any.
fn lookup_entries<'a>(v: &'a Vec<(String, Json)>, key: &str) -> (r: Option<&'a Json>)
    ensures
        match r {
            Some(x) => entries_lookup(entries_view(v@), key@, v@.len() as int) == Some(x@),
            None => entries_lookup(entries_view(v@), key@, v@.len() as int) is None,
        },
{
    let kv = chars_of(key);
    let ghost es = entries_view(v@);
    proof {
        lemma_entries_view(v@);
    }
    let mut i: usize = 0;
    while i < v.len()
        invariant
            i <= v@.len(),
            es == entries_view(v@),
            es.len() == v@.len(),
            kv@ == key@,
            forall|k: int| 0 <= k < v@.len() ==> #[trigger] es[k] == (v@[k].0@, json_view(v@[k].1)),
            entries_lookup(es, key@, i as int) is None,
        decreases v@.len() - i,
    {
        let name = chars_of(v[i].0.as_str());
        if chars_eq(name.as_slice(), kv.as_slice()) {
            assert(es[i as int].0 == key@);
            proof {
                lemma_entries_lookup_extend(es, key@, i as int + 1, v@.len() as int);
            }
            return Some(&v[i].1);
        }
        i = i + 1;
    }
    None
}

/// Once a key has been found in a prefix, longer prefixes find the same value.
pub proof fn lemma_entries_lookup_extend(es: Seq<(Seq<char>, JsonView)>, key: Seq<char>, n: int, m: int)
    requires
        0 <= n <= m,
        entries_lookup(es, key, n) is Some,
    ensures
        entries_lookup(es, key, m) == entries_lookup(es, key, n),
    decreases m - n,
{
    if m > n {
        lemma_entries_lookup_extend(es, key, n, m - 1);
    }
}

/// `value.get(key)`: the value under `key` when `value` is an object holding it.
pub fn get<'a>(value: &'a Json, key: &str) -> (r: Option<&'a Json>)
    ensures
        match r {
            Some(x) => x@ == field(value@, key@) && value@ is Object,
            None => field(value@, key@) == JsonView::Null,
        },
{
    match value {
        Json::Object(v) => {
            proof {
                lemma_entries_view(v@);
            }
            lookup_entries(v, key)
        },
        _ => None,
    }
}

/// `value[key].as_str()`.
pub fn get_str<'a>(value: &'a Json, key: &str) -> (r: Option<&'a str>)
    ensures
        match r {
            Some(s) => as_str(field(value@, key@)) == Some(s@),
            None => as_str(field(value@, key@)) is None,
        },
{
    match get(value, key) {
        Some(Json::Str(s)) => Some(s.as_str()),
        _ => None,
    }
}

/// `value[key].as_str()` trimmed, when that leaves text.
pub fn get_text<'a>(value: &'a Json, key: &str) -> (r: Option<&'a str>)
    ensures
        match r {
            Some(s) => as_text(field(value@, key@)) == Some(s@),
            None => as_text(field(value@, key@)) is None,
        },
{
    match get_str(value, key) {
        Some(s) => {
            let t = trim_str(s);
            if t.unicode_len() == 0 {
                None
            } else {
                Some(t)
            }
        },
        None => None,
    }
}

/// `value[key].as_u64()`.
pub fn get_u64(value: &Json, key: &str) -> (r: Option<u64>)
    ensures
        r == as_u64(field(value@, key@)),
{
    match get(value, key) {
        Some(Json::Number(n)) => {
            if 0 <= *n && *n <= u64::MAX as i128 {
                Some(*n as u64)
            } else {
                None
            }
        },
        _ => None,
    }
}

/// `value[key].as_bool()`.
pub fn get_bool(value: &Json, key: &str) -> (r: Option<bool>)
    ensures
        r == as_bool(field(value@, key@)),
{
    match get(value, key) {
        Some(Json::Bool(b)) => Some(*b),
        _ => None,
    }
}

/// `value[key]`, copied; `null` when missing.
pub fn get_cloned(value: &Json, key: &str) -> (r: Json)
    ensures
        r@ == field(value@, key@),
{
    match get(value, key) {
        Some(x) => clone_json(x),
        None => Json::Null,
    }
}

pub fn is_object(value: &Json) -> (b: bool)
    ensures
        b == (value@ is Object),
{
    match value {
        Json::Object(_) => true,
        _ => false,
    }
}

pub fn is_array(value: &Json) -> (b: bool)
    ensures
        b == (value@ is Array),
{
    match value {
        Json::Array(_) => true,
        _ => false,
    }
}

/// A JSON string.
pub fn str_json(s: &str) -> (r: Json)
    ensures
        r@ == JsonView::Str(s@),
{
    Json::Str(s.to_string())
}

/// A JSON string or `null`.
pub fn opt_str_json(o: Option<&str>) -> (r: Json)
    ensures
        r@ == opt_str_view(match o {
            Some(s) => Some(s@),
            None => None,
        }),
{
    match o {
        Some(s) => Json::Str(s.to_string()),
        None => Json::Null,
    }
}

/// An owned optional string as a JSON string or `null`.
pub fn opt_string_json(o: Option<String>) -> (r: Json)
    ensures
        r@ == opt_str_view(match o {
            Some(s) => Some(s@),
            None => None,
        }),
{
    match o {
        Some(s) => Json::Str(s),
        None => Json::Null,
    }
}

/// A JSON number or `null`.
pub fn opt_u64_json(o: Option<u64>) -> (r: Json)
    ensures
        r@ == opt_u64_view(o),
{
    match o {
        Some(n) => Json::Number(n as i128),
        None => Json::Null,
    }
}

/// The position of the first entry under `key` among `es[..n]`.
pub open spec fn entries_position(es: Seq<(Seq<char>, JsonView)>, key: Seq<char>, n: int) -> Option<int>
    decreases n,
{
    if n <= 0 {
        None
    } else {
        match entries_position(es, key, n - 1) {
            Some(i) => Some(i),
            None => if es[n - 1].0 == key {
                Some(n - 1)
            } else {
                None
            },
        }
    }
}

/// The entries after `key` is set to `v`: the first entry under `key` takes the new
/// value, or a new entry is appended.
pub open spec fn entries_set(es: Seq<(Seq<char>, JsonView)>, key: Seq<char>, v: JsonView) -> Seq<(Seq<char>, JsonView)> {
    match entries_position(es, key, es.len() as int) {
        Some(i) => es.update(i, (key, v)),
        None => es.push((key, v)),
    }
}

/// A value that `value[key] = ..` can write into: an object, or `null`, which becomes one.
pub open spec fn settable(j: JsonView) -> bool {
    j is Object || j is Null
}

/// `value[key] = v` on an object or on `null`.
pub open spec fn with_field(j: JsonView, key: Seq<char>, v: JsonView) -> JsonView {
    match j {
        JsonView::Object(es) => JsonView::Object(entries_set(es, key, v)),
        _ => JsonView::Object(seq![(key, v)]),
    }
}

/// `value[k1][k2] = v`.
pub open spec fn with_field2(j: JsonView, k1: Seq<char>, k2: Seq<char>, v: JsonView) -> JsonView {
    with_field(j, k1, with_field(field(j, k1), k2, v))
}

/// `value[k1][k2][k3] = v`.
pub open spec fn with_field3(
    j: JsonView,
    k1: Seq<char>,
    k2: Seq<char>,
    k3: Seq<char>,
    v: JsonView,
) -> JsonView {
    with_field(j, k1, with_field2(field(j, k1), k2, k3, v))
}

proof fn lemma_position_lookup(es: Seq<(Seq<char>, JsonView)>, key: Seq<char>, n: int)
    requires
        0 <= n <= es.len(),
    ensures
        match entries_position(es, key, n) {
            Some(i) => 0 <= i < n && es[i].0 == key && entries_lookup(es, key, n) == Some(es[i].1)
                && forall|j: int| 0 <= j < i ==> es[j].0 != key,
            None => entries_lookup(es, key, n) is None && forall|j: int| 0 <= j < n ==> es[j].0 != key,
        },
    decreases n,
{
    if n > 0 {
        lemma_position_lookup(es, key, n - 1);
    }
}

/// Lookups of `key` agree on entry lists that agree on every entry under `key` and on
/// which entries are under `key`.
proof fn lemma_lookup_agree(a: Seq<(Seq<char>, JsonView)>, b: Seq<(Seq<char>, JsonView)>, key: Seq<char>, n: int)
    requires
        0 <= n <= a.len(),
        n <= b.len(),
        forall|j: int| 0 <= j < n ==> (a[j].0 == key <==> b[j].0 == key),
        forall|j: int| 0 <= j < n && a[j].0 == key ==> a[j].1 == b[j].1,
    ensures
        entries_lookup(a, key, n) == entries_lookup(b, key, n),
    decreases n,
{
    if n > 0 {
        lemma_lookup_agree(a, b, key, n - 1);
    }
}

/// After `value[key] = v`, reading `key` gives `v` and reading any other key gives what
/// it gave before.
pub proof fn lemma_with_field_reads(j: JsonView, key: Seq<char>, v: JsonView, other: Seq<char>)
    requires
        settable(j),
    ensures
        field(with_field(j, key, v), key) == v,
        other != key ==> field(with_field(j, key, v), other) == field(j, other),
        with_field(j, key, v) is Object,
{
    match j {
        JsonView::Object(es) => {
            let n = es.len() as int;
            lemma_position_lookup(es, key, n);
            let es2 = entries_set(es, key, v);
            match entries_position(es, key, n) {
                Some(i) => {
                    assert(es2 == es.update(i, (key, v)));
                    lemma_position_lookup(es2, key, n);
                    assert(es2[i].0 == key);
                    lemma_position_lookup_first(es2, key, n, i);
                    if other != key {
                        lemma_lookup_agree(es, es2, other, n);
                    }
                },
                None => {
                    assert(es2 == es.push((key, v)));
                    lemma_lookup_agree(es, es2, key, n);
                    if other != key {
                        lemma_lookup_agree(es, es2, other, n);
                    }
                },
            }
        },
        _ => {
            let es2 = seq![(key, v)];
            assert(entries_lookup(es2, key, 0) is None);
            assert(entries_lookup(es2, other, 0) is None);
        },
    }
}

/// Whether an object holds `key`.
pub open spec fn has_field(v: JsonView, key: Seq<char>) -> bool {
    match v {
        JsonView::Object(es) => entries_lookup(es, key, es.len() as int) is Some,
        _ => false,
    }
}

/// A key that no entry carries is not found.
pub proof fn lemma_lookup_absent(es: Seq<(Seq<char>, JsonView)>, key: Seq<char>, n: int)
    requires
        0 <= n <= es.len(),
        forall|j: int| 0 <= j < n ==> es[j].0 != key,
    ensures
        entries_lookup(es, key, n) is None,
    decreases n,
{
    if n > 0 {
        lemma_lookup_absent(es, key, n - 1);
    }
}

pub proof fn lemma_position_lookup_first(es: Seq<(Seq<char>, JsonView)>, key: Seq<char>, n: int, i: int)
    requires
        0 <= i < n <= es.len(),
        es[i].0 == key,
        forall|j: int| 0 <= j < i ==> es[j].0 != key,
    ensures
        entries_lookup(es, key, n) == Some(es[i].1),
{
    lemma_position_lookup(es, key, n);
    lemma_position_lookup(es, key, i);
    lemma_position_lookup(es, key, i + 1);
    lemma_entries_lookup_extend(es, key, i + 1, n);
}

/// The position of the first entry under `key`, if any.
fn position_entries(v: &Vec<(String, Json)>, key: &str) -> (r: Option<usize>)
    ensures
        match r {
            Some(i) => entries_position(entries_view(v@), key@, v@.len() as int) == Some(i as int),
            None => entries_position(entries_view(v@), key@, v@.len() as int) is None,
        },
{
    let kv = chars_of(key);
    let ghost es = entries_view(v@);
    proof {
        lemma_entries_view(v@);
    }
    let mut i: usize = 0;
    while i < v.len()
        invariant
            i <= v@.len(),
            es == entries_view(v@),
            es.len() == v@.len(),
            kv@ == key@,
            forall|k: int| 0 <= k < v@.len() ==> #[trigger] es[k] == (v@[k].0@, json_view(v@[k].1)),
            entries_position(es, key@, i as int) is None,
        decreases v@.len() - i,
    {
        let name = chars_of(v[i].0.as_str());
        if chars_eq(name.as_slice(), kv.as_slice()) {
            assert(es[i as int].0 == key@);
            proof {
                lemma_position_extend(es, key@, i as int + 1, v@.len() as int);
            }
            return Some(i);
        }
        i = i + 1;
    }
    None
}

proof fn lemma_position_extend(es: Seq<(Seq<char>, JsonView)>, key: Seq<char>, n: int, m: int)
    requires
        0 <= n <= m,
        entries_position(es, key, n) is Some,
    ensures
        entries_position(es, key, m) == entries_position(es, key, n),
    decreases m - n,
{
    if m > n {
        lemma_position_extend(es, key, n, m - 1);
    }
}

proof fn lemma_entries_update(s: Seq<(String, Json)>, i: int, e: (String, Json))
    requires
        0 <= i < s.len(),
    ensures
        entries_view(s.update(i, e)) == entries_view(s).update(i, (e.0@, json_view(e.1))),
{
    lemma_entries_view(s);
    lemma_entries_view(s.update(i, e));
    assert(entries_view(s.update(i, e)) =~= entries_view(s).update(i, (e.0@, json_view(e.1))));
}

/// `value[key] = v` on an object or on `null`, which becomes an object.
pub fn set_field(value: Json, key: &str, v: Json) -> (r: Json)
    requires
        settable(value@),
    ensures
        r@ == with_field(value@, key@, v@),
{
    match value {
        Json::Object(mut es) => {
            let ghost old_es = es@;
            match position_entries(&es, key) {
                Some(i) => {
                    let e = (key.to_string(), v);
                    proof {
                        lemma_entries_view(es@);
                        lemma_position_lookup(entries_view(es@), key@, es@.len() as int);
                        lemma_entries_update(es@, i as int, e);
                    }
                    es.set(i, e);
                    assert(entries_view(es@) == entries_set(entries_view(old_es), key@, v@));
                },
                None => {
                    let e = (key.to_string(), v);
                    proof {
                        lemma_entries_view(es@);
                        lemma_entries_push(es@, e);
                    }
                    es.push(e);
                    assert(entries_view(es@) == entries_set(entries_view(old_es), key@, v@));
                },
            }
            assert(value@ == JsonView::Object(entries_view(old_es)));
            Json::Object(es)
        },
        _ => {
            let mut es: Vec<(String, Json)> = Vec::new();
            let e = (key.to_string(), v);
            proof {
                lemma_entries_push(es@, e);
                assert(es@ =~= Seq::<(String, Json)>::empty());
                assert(entries_view(Seq::<(String, Json)>::empty()) =~= Seq::<(Seq<char>, JsonView)>::empty());
                assert(Seq::<(Seq<char>, JsonView)>::empty().push((key@, v@)) =~= seq![(key@, v@)]);
            }
            es.push(e);
            Json::Object(es)
        },
    }
}

/// `value[k1][k2] = v`.
pub fn set_field2(value: &mut Json, k1: &str, k2: &str, v: Json)
    requires
        settable(old(value)@),
        settable(field(old(value)@, k1@)),
    ensures
        final(value)@ == with_field2(old(value)@, k1@, k2@, v@),
{
    let mut cur = Json::Null;
    std::mem::swap(&mut cur, value);
    let child = get_cloned(&cur, k1);
    let child = set_field(child, k2, v);
    *value = set_field(cur, k1, child);
}

/// `value[k1][k2][k3] = v`.
pub fn set_field3(value: &mut Json, k1: &str, k2: &str, k3: &str, v: Json)
    requires
        settable(old(value)@),
        settable(field(old(value)@, k1@)),
        settable(field(field(old(value)@, k1@), k2@)),
    ensures
        final(value)@ == with_field3(old(value)@, k1@, k2@, k3@, v@),
{
    let mut cur = Json::Null;
    std::mem::swap(&mut cur, value);
    let mut child = get_cloned(&cur, k1);
    set_field2(&mut child, k2, k3, v);
    *value = set_field(cur, k1, child);
}

/// The text of each key.
pub open spec fn key_views(keys: Seq<&str>) -> Seq<Seq<char>> {
    keys.map_values(|k: &str| k@)
}

/// `value` is an object holding `key` (whatever its value, `null` included).
pub open spec fn has_key(v: JsonView, key: Seq<char>) -> bool {
    match v {
        JsonView::Object(es) => entries_lookup(es, key, es.len() as int) is Some,
        _ => false,
    }
}

/// `value.as_object().is_some_and(|o| o.contains_key(key))`.
pub fn contains_key(value: &Json, key: &str) -> (b: bool)
    ensures
        b == has_key(value@, key@),
{
    match value {
        Json::Object(v) => {
            proof {
                lemma_entries_view(v@);
            }
            lookup_entries(v, key).is_some()
        },
        _ => false,
    }
}

/// Copying the fields of `source` named in `fields` into `target`, skipping those that
/// are `null` or missing.
pub open spec fn copy_present(target: JsonView, source: JsonView, fields: Seq<Seq<char>>) -> JsonView
    decreases fields.len(),
{
    if fields.len() == 0 {
        target
    } else {
        let t = copy_present(target, source, fields.drop_last());
        let f = fields.last();
        if field(source, f) == JsonView::Null {
            t
        } else {
            with_field(t, f, field(source, f))
        }
    }
}

/// After copying, a listed field that the source holds reads as in the source, and every
/// other key reads as it did in the target.
pub proof fn lemma_copy_present_reads(
    target: JsonView,
    source: JsonView,
    fields: Seq<Seq<char>>,
    key: Seq<char>,
)
    requires
        settable(target),
    ensures
        settable(copy_present(target, source, fields)),
        field(copy_present(target, source, fields), key) == if fields.contains(key) && field(
            source,
            key,
        ) != JsonView::Null {
            field(source, key)
        } else {
            field(target, key)
        },
    decreases fields.len(),
{
    if fields.len() > 0 {
        let rest = fields.drop_last();
        lemma_copy_present_reads(target, source, rest, key);
        let t = copy_present(target, source, rest);
        let f = fields.last();
        if field(source, f) != JsonView::Null {
            lemma_with_field_reads(t, f, field(source, f), key);
        }
        if fields.contains(key) && !rest.contains(key) {
            let i = choose|i: int| 0 <= i < fields.len() && fields[i] == key;
            if i < rest.len() {
                assert(rest[i] == key);
            }
        }
        if rest.contains(key) {
            let i = choose|i: int| 0 <= i < rest.len() && rest[i] == key;
            assert(fields[i] == key);
        }
    }
}

/// `copy_if_present`: copies the named fields of `source` that are not `null` into
/// `target`.
pub fn copy_if_present(target: &mut Json, source: &Json, fields: &[&str])
    requires
        settable(old(target)@),
    ensures
        final(target)@ == copy_present(old(target)@, source@, key_views(fields@)),
{
    let ghost t0 = target@;
    let ghost ks = key_views(fields@);
    let mut i: usize = 0;
    assert(ks.take(0) =~= Seq::<Seq<char>>::empty());
    while i < fields.len()
        invariant
            i <= fields@.len(),
            ks == key_views(fields@),
            ks.len() == fields@.len(),
            settable(t0),
            target@ == copy_present(t0, source@, ks.take(i as int)),
        decreases fields@.len() - i,
    {
        let f = fields[i];
        proof {
            assert(ks.take(i + 1).drop_last() =~= ks.take(i as int));
            assert(ks[i as int] == f@);
            crate::json::lemma_copy_present_reads(t0, source@, ks.take(i as int), f@);
        }
        let v = get_cloned(source, f);
        if !matches!(v, Json::Null) {
            let mut cur = Json::Null;
            std::mem::swap(&mut cur, target);
            *target = set_field(cur, f, v);
        }
        i = i + 1;
    }
    assert(ks.take(i as int) =~= ks);
}

/// The entries without any entry under `key`.
pub open spec fn entries_without(es: Seq<(Seq<char>, JsonView)>, key: Seq<char>) -> Seq<(Seq<char>, JsonView)>
    decreases es.len(),
{
    if es.len() == 0 {
        es
    } else if es.last().0 == key {
        entries_without(es.drop_last(), key)
    } else {
        entries_without(es.drop_last(), key).push(es.last())
    }
}

/// `value.as_object_mut().remove(key)` on an object; other values unchanged.
pub open spec fn without_key(v: JsonView, key: Seq<char>) -> JsonView {
    match v {
        JsonView::Object(es) => JsonView::Object(entries_without(es, key)),
        _ => v,
    }
}

/// After removing `key`, it reads as `null`, and every other key reads as before.
pub proof fn lemma_without_key_reads(v: JsonView, key: Seq<char>, other: Seq<char>)
    ensures
        v is Object ==> field(without_key(v, key), key) == JsonView::Null,
        other != key ==> field(without_key(v, key), other) == field(v, other),
{
    match v {
        JsonView::Object(es) => {
            lemma_entries_without(es, key, other);
        },
        _ => {},
    }
}

proof fn lemma_entries_without(es: Seq<(Seq<char>, JsonView)>, key: Seq<char>, other: Seq<char>)
    ensures
        entries_lookup(entries_without(es, key), key, entries_without(es, key).len() as int) is None,
        other != key ==> entries_lookup(entries_without(es, key), other, entries_without(es, key).len() as int)
            == entries_lookup(es, other, es.len() as int),
    decreases es.len(),
{
    if es.len() > 0 {
        let rest = es.drop_last();
        lemma_entries_without(rest, key, other);
        let w = entries_without(rest, key);
        let x = es.last();
        lemma_lookup_prefix(es, other, es.len() as int);
        if x.0 != key {
            let w2 = w.push(x);
            assert(w2.drop_last() =~= w);
            lemma_lookup_prefix(w2, other, w2.len() as int);
            lemma_lookup_prefix(w2, key, w2.len() as int);
            lemma_lookup_agree(w2, w, key, w.len() as int);
            lemma_lookup_agree(w2, w, other, w.len() as int);
            lemma_lookup_agree(es, rest, other, rest.len() as int);
        } else {
            lemma_lookup_agree(es, rest, other, rest.len() as int);
        }
    }
}

/// A lookup among the first `n` entries of `es` unfolds at the last of them.
proof fn lemma_lookup_prefix(es: Seq<(Seq<char>, JsonView)>, key: Seq<char>, n: int)
    requires
        0 < n <= es.len(),
    ensures
        entries_lookup(es, key, n) == match entries_lookup(es, key, n - 1) {
            Some(v) => Some(v),
            None => if es[n - 1].0 == key {
                Some(es[n - 1].1)
            } else {
                None
            },
        },
{
}

/// Removes every entry under `key` from an object.
pub fn remove_key(value: &Json, key: &str) -> (r: Json)
    ensures
        r@ == without_key(value@, key@),
{
    match value {
        Json::Object(v) => {
            let kv = chars_of(key);
            let mut out: Vec<(String, Json)> = Vec::new();
            let mut i: usize = 0;
            assert(v@.take(0) =~= Seq::<(String, Json)>::empty());
            assert(entries_view(Seq::<(String, Json)>::empty()) =~= Seq::<(Seq<char>, JsonView)>::empty());
            while i < v.len()
                invariant
                    i <= v@.len(),
                    kv@ == key@,
                    entries_view(out@) == entries_without(entries_view(v@.take(i as int)), key@),
                decreases v@.len() - i,
            {
                proof {
                    assert(v@.take(i + 1) =~= v@.take(i as int).push(v@[i as int]));
                    lemma_entries_push(v@.take(i as int), v@[i as int]);
                    let ev = entries_view(v@.take(i as int));
                    let xv = (v@[i as int].0@, json_view(v@[i as int].1));
                    assert(ev.push(xv).drop_last() =~= ev);
                }
                let name = chars_of(v[i].0.as_str());
                if !chars_eq(name.as_slice(), kv.as_slice()) {
                    let e = (v[i].0.clone(), clone_json(&v[i].1));
                    proof {
                        lemma_entries_push(out@, e);
                    }
                    out.push(e);
                }
                i = i + 1;
            }
            assert(v@.take(i as int) =~= v@);
            Json::Object(out)
        },
        _ => clone_json(value),
    }
}

/// The entries of an object under construction.
pub struct ObjectBuilder {
    pub entries: Vec<(String, Json)>,
}

impl ObjectBuilder {
    pub open spec fn view_entries(&self) -> Seq<(Seq<char>, JsonView)> {
        entries_view(self.entries@)
    }

    pub fn new() -> (b: ObjectBuilder)
        ensures
            b.view_entries() == Seq::<(Seq<char>, JsonView)>::empty(),
    {
        ObjectBuilder { entries: Vec::new() }
    }

    /// Appends `key: value`.
    pub fn push(&mut self, key: &str, value: Json)
        ensures
            final(self).view_entries() == old(self).view_entries().push((key@, value@)),
    {
        let e = (key.to_string(), value);
        proof {
            lemma_entries_push(self.entries@, e);
        }
        self.entries.push(e);
    }

    pub fn build(self) -> (r: Json)
        ensures
            r@ == JsonView::Object(self.view_entries()),
    {
        Json::Object(self.entries)
    }
}

} // verus!
