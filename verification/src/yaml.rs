//! A YAML document tree, and the lookups that the compose file reader makes
//! on it.
//!
//! The accessors follow the YAML value model of the compose file format: a
//! tag is looked through by every accessor, and a mapping is searched by a
//! plain (untagged) string key.
use vstd::prelude::*;
use crate::text::str_eq;

verus! {

broadcast use vstd::string::group_string_axioms;

/// A YAML value.
#[derive(Debug)]
pub enum Yaml {
    /// `null` or `~`.
    Null,
    /// `true` or `false`.
    Bool(bool),
    /// A non-negative integer.
    UInt(u64),
    /// A negative integer.
    NegInt(i64),
    /// A floating-point number, held as the bits of its IEEE 754 encoding.
    Float(u64),
    /// A string.
    String(String),
    /// A sequence of values.
    Sequence(Vec<Yaml>),
    /// A mapping, as key-value entries in document order.
    Mapping(Vec<(Yaml, Yaml)>),
    /// A value with an explicit `!tag`.
    Tagged(String, Box<Yaml>),
}

/// `v` with its tags looked through.
pub open spec fn untag(v: Yaml) -> Yaml
    decreases v,
{
    match v {
        Yaml::Tagged(_, inner) => untag(*inner),
        _ => v,
    }
}

/// The string of `v`, if it is one.
pub open spec fn str_of(v: Yaml) -> Option<Seq<char>> {
    match untag(v) {
        Yaml::String(s) => Some(s@),
        _ => None,
    }
}

/// The unsigned integer of `v`, if it is one.
pub open spec fn u64_of(v: Yaml) -> Option<u64> {
    match untag(v) {
        Yaml::UInt(n) => Some(n),
        _ => None,
    }
}

/// The boolean of `v`, if it is one.
pub open spec fn bool_of(v: Yaml) -> Option<bool> {
    match untag(v) {
        Yaml::Bool(b) => Some(b),
        _ => None,
    }
}

/// The items of `v`, if it is a sequence.
pub open spec fn sequence_of(v: Yaml) -> Option<Seq<Yaml>> {
    match untag(v) {
        Yaml::Sequence(items) => Some(items@),
        _ => None,
    }
}

/// The entries of `v`, if it is a mapping.
pub open spec fn mapping_of(v: Yaml) -> Option<Seq<(Yaml, Yaml)>> {
    match untag(v) {
        Yaml::Mapping(entries) => Some(entries@),
        _ => None,
    }
}

/// `k` is the plain string `key`.
pub open spec fn is_key(k: Yaml, key: Seq<char>) -> bool {
    k matches Yaml::String(s) && s@ == key
}

/// The value of the first entry whose key is the plain string `key`.
pub open spec fn lookup(entries: Seq<(Yaml, Yaml)>, key: Seq<char>) -> Option<Yaml>
    decreases entries.len(),
{
    if entries.len() == 0 {
        None
    } else if is_key(entries[0].0, key) {
        Some(entries[0].1)
    } else {
        lookup(entries.drop_first(), key)
    }
}

/// The value under `key` when `v` is a mapping.
pub open spec fn yaml_get(v: Yaml, key: Seq<char>) -> Option<Yaml> {
    match mapping_of(v) {
        Some(entries) => lookup(entries, key),
        None => None,
    }
}

/// The string under `key`.
pub open spec fn get_str(v: Yaml, key: Seq<char>) -> Option<Seq<char>> {
    match yaml_get(v, key) {
        Some(x) => str_of(x),
        None => None,
    }
}

/// The sequence under `key`.
pub open spec fn get_seq(v: Yaml, key: Seq<char>) -> Option<Seq<Yaml>> {
    match yaml_get(v, key) {
        Some(x) => sequence_of(x),
        None => None,
    }
}

/// The mapping under `key`.
pub open spec fn get_map(v: Yaml, key: Seq<char>) -> Option<Seq<(Yaml, Yaml)>> {
    match yaml_get(v, key) {
        Some(x) => mapping_of(x),
        None => None,
    }
}

/// The unsigned integer under `key`.
pub open spec fn get_u64(v: Yaml, key: Seq<char>) -> Option<u64> {
    match yaml_get(v, key) {
        Some(x) => u64_of(x),
        None => None,
    }
}

/// The boolean under `key`.
pub open spec fn get_bool(v: Yaml, key: Seq<char>) -> Option<bool> {
    match yaml_get(v, key) {
        Some(x) => bool_of(x),
        None => None,
    }
}

/// The string items of a sequence, in order; other items are skipped.
pub open spec fn str_items(items: Seq<Yaml>) -> Seq<Seq<char>>
    decreases items.len(),
{
    if items.len() == 0 {
        seq![]
    } else {
        let rest = str_items(items.drop_last());
        match str_of(items.last()) {
            Some(s) => rest.push(s),
            None => rest,
        }
    }
}

/// `m` with `key` bound to `value`: an existing binding of `key` is
/// replaced in place, otherwise the binding is added at the end.
pub open spec fn assoc_insert<V>(m: Seq<(Seq<char>, V)>, key: Seq<char>, value: V) -> Seq<
    (Seq<char>, V),
>
    decreases m.len(),
{
    if m.len() == 0 {
        seq![(key, value)]
    } else if m[0].0 == key {
        seq![(key, value)] + m.drop_first()
    } else {
        seq![m[0]] + assoc_insert(m.drop_first(), key, value)
    }
}

/// The entries of a mapping whose key and value are both strings, gathered
/// into an association list in document order.
pub open spec fn str_pairs(entries: Seq<(Yaml, Yaml)>) -> Seq<(Seq<char>, Seq<char>)>
    decreases entries.len(),
{
    if entries.len() == 0 {
        seq![]
    } else {
        let rest = str_pairs(entries.drop_last());
        match (str_of(entries.last().0), str_of(entries.last().1)) {
            (Some(k), Some(v)) => assoc_insert(rest, k, v),
            _ => rest,
        }
    }
}

/// `v` with its tags looked through.
pub fn untag_ref(v: &Yaml) -> (r: &Yaml)
    ensures
        *r == untag(*v),
    decreases v,
{
    match v {
        Yaml::Tagged(_, inner) => untag_ref(inner),
        _ => v,
    }
}

/// The string of `v`, if it is one.
pub fn as_str(v: &Yaml) -> (r: Option<&String>)
    ensures
        match r {
            Some(s) => str_of(*v) == Some(s@),
            None => str_of(*v) is None,
        },
{
    match untag_ref(v) {
        Yaml::String(s) => Some(s),
        _ => None,
    }
}

/// The unsigned integer of `v`, if it is one.
pub fn as_u64(v: &Yaml) -> (r: Option<u64>)
    ensures
        r == u64_of(*v),
{
    match untag_ref(v) {
        Yaml::UInt(n) => Some(*n),
        _ => None,
    }
}

/// The boolean of `v`, if it is one.
pub fn as_bool(v: &Yaml) -> (r: Option<bool>)
    ensures
        r == bool_of(*v),
{
    match untag_ref(v) {
        Yaml::Bool(b) => Some(*b),
        _ => None,
    }
}

/// The items of `v`, if it is a sequence.
pub fn as_sequence(v: &Yaml) -> (r: Option<&Vec<Yaml>>)
    ensures
        match r {
            Some(items) => sequence_of(*v) == Some(items@),
            None => sequence_of(*v) is None,
        },
{
    match untag_ref(v) {
        Yaml::Sequence(items) => Some(items),
        _ => None,
    }
}

/// The entries of `v`, if it is a mapping.
pub fn as_mapping(v: &Yaml) -> (r: Option<&Vec<(Yaml, Yaml)>>)
    ensures
        match r {
            Some(entries) => mapping_of(*v) == Some(entries@),
            None => mapping_of(*v) is None,
        },
{
    match untag_ref(v) {
        Yaml::Mapping(entries) => Some(entries),
        _ => None,
    }
}

/// The value of the first entry whose key is the plain string `key`.
pub fn lookup_key<'a>(entries: &'a Vec<(Yaml, Yaml)>, key: &str) -> (r: Option<&'a Yaml>)
    ensures
        match r {
            Some(x) => lookup(entries@, key@) == Some(*x),
            None => lookup(entries@, key@) is None,
        },
{
    let mut i: usize = 0;
    assert(entries@.skip(0) =~= entries@);
    while i < entries.len()
        invariant
            i <= entries.len(),
            lookup(entries@, key@) == lookup(entries@.skip(i as int), key@),
        decreases entries.len() - i,
    {
        let hit = match &entries[i].0 {
            Yaml::String(s) => str_eq(s.as_str(), key),
            _ => false,
        };
        assert(entries@.skip(i as int)[0] == entries@[i as int]);
        if hit {
            return Some(&entries[i].1);
        }
        assert(entries@.skip(i as int).drop_first() =~= entries@.skip(i + 1));
        i = i + 1;
    }
    None
}

/// The value under `key` when `v` is a mapping.
pub fn get<'a>(v: &'a Yaml, key: &str) -> (r: Option<&'a Yaml>)
    ensures
        match r {
            Some(x) => yaml_get(*v, key@) == Some(*x),
            None => yaml_get(*v, key@) is None,
        },
{
    match as_mapping(v) {
        Some(entries) => lookup_key(entries, key),
        None => None,
    }
}

/// The string under `key`.
pub fn get_string(v: &Yaml, key: &str) -> (r: Option<String>)
    ensures
        match r {
            Some(s) => get_str(*v, key@) == Some(s@),
            None => get_str(*v, key@) is None,
        },
{
    match get(v, key) {
        Some(x) => match as_str(x) {
            Some(s) => Some(s.clone()),
            None => None,
        },
        None => None,
    }
}

/// The sequence under `key`.
pub fn get_sequence<'a>(v: &'a Yaml, key: &str) -> (r: Option<&'a Vec<Yaml>>)
    ensures
        match r {
            Some(items) => get_seq(*v, key@) == Some(items@),
            None => get_seq(*v, key@) is None,
        },
{
    match get(v, key) {
        Some(x) => as_sequence(x),
        None => None,
    }
}

/// The mapping under `key`.
pub fn get_mapping<'a>(v: &'a Yaml, key: &str) -> (r: Option<&'a Vec<(Yaml, Yaml)>>)
    ensures
        match r {
            Some(entries) => get_map(*v, key@) == Some(entries@),
            None => get_map(*v, key@) is None,
        },
{
    match get(v, key) {
        Some(x) => as_mapping(x),
        None => None,
    }
}

/// The unsigned integer under `key`.
pub fn get_unsigned(v: &Yaml, key: &str) -> (r: Option<u64>)
    ensures
        r == get_u64(*v, key@),
{
    match get(v, key) {
        Some(x) => as_u64(x),
        None => None,
    }
}

/// The boolean under `key`.
pub fn get_boolean(v: &Yaml, key: &str) -> (r: Option<bool>)
    ensures
        r == get_bool(*v, key@),
{
    match get(v, key) {
        Some(x) => as_bool(x),
        None => None,
    }
}

/// The string items of a sequence, in order.
pub fn string_items(items: &Vec<Yaml>) -> (out: Vec<String>)
    ensures
        out.deep_view() == str_items(items@),
{
    let mut out: Vec<String> = Vec::new();
    let mut i: usize = 0;
    while i < items.len()
        invariant
            i <= items.len(),
            out.deep_view() == str_items(items@.take(i as int)),
        decreases items.len() - i,
    {
        let ghost before = out.deep_view();
        assert(items@.take(i + 1).drop_last() == items@.take(i as int));
        assert(items@.take(i + 1).last() == items@[i as int]);
        match as_str(&items[i]) {
            Some(s) => {
                out.push(s.clone());
                assert(out.deep_view() =~= before.push(s@));
            },
            None => {},
        }
        i = i + 1;
    }
    assert(items@.take(items.len() as int) == items@);
    out
}

/// Binds `key` to `value` in the association list `m`, replacing an
/// existing binding in place.
pub fn assoc_put<V: DeepView>(m: &mut Vec<(String, V)>, key: String, value: V)
    ensures
        final(m).deep_view() == assoc_insert(old(m).deep_view(), key@, value.deep_view()),
{
    let ghost start = m.deep_view();
    let mut i: usize = 0;
    assert(start.skip(0) =~= start);
    assert(start.take(0) + assoc_insert(start, key@, value.deep_view()) =~= assoc_insert(start, key@, value.deep_view()));
    while i < m.len()
        invariant
            i <= m.len(),
            m.deep_view() == start,
            start == old(m).deep_view(),
            forall|j: int| 0 <= j < i ==> #[trigger] start[j].0 != key@,
            assoc_insert(start, key@, value.deep_view()) == start.take(i as int) + assoc_insert(
                start.skip(i as int),
                key@,
                value.deep_view(),
            ),
        decreases m.len() - i,
    {
        let ghost rest = start.skip(i as int);
        assert(rest[0] == start[i as int]);
        assert(rest.drop_first() =~= start.skip(i + 1));
        if str_eq(m[i].0.as_str(), key.as_str()) {
            let ghost k = key@;
            let ghost v = value.deep_view();
            m.set(i, (key, value));
            assert(m.deep_view() =~= start.take(i as int) + (seq![(k, v)] + rest.drop_first()));
            assert(rest[0].0 == k);
            assert(assoc_insert(rest, k, v) == seq![(k, v)] + rest.drop_first());
            return;
        }
        assert(start.take(i + 1) =~= start.take(i as int).push(start[i as int]));
        assert(start.take(i as int) + (seq![rest[0]] + assoc_insert(rest.drop_first(), key@, value.deep_view()))
            =~= start.take(i + 1) + assoc_insert(start.skip(i + 1), key@, value.deep_view()));
        i = i + 1;
    }
    let ghost k = key@;
    let ghost v = value.deep_view();
    assert(start.skip(i as int).len() == 0);
    assert(start.take(i as int) == start);
    m.push((key, value));
    assert(m.deep_view() =~= start + seq![(k, v)]);
}

/// `m` without its first binding for `k`.
pub open spec fn assoc_remove<V>(m: Seq<(Seq<char>, V)>, k: Seq<char>) -> Seq<(Seq<char>, V)>
    decreases m.len(),
{
    if m.len() == 0 {
        m
    } else if m[0].0 == k {
        m.drop_first()
    } else {
        seq![m[0]] + assoc_remove(m.drop_first(), k)
    }
}

/// Removes the first binding for `k` from the association list `m`.
pub fn assoc_delete<V: DeepView>(m: &mut Vec<(String, V)>, k: &str)
    ensures
        final(m).deep_view() == assoc_remove(old(m).deep_view(), k@),
{
    let ghost start = m.deep_view();
    let mut i: usize = 0;
    assert(start.skip(0) =~= start);
    assert(start.take(0) + assoc_remove(start, k@) =~= assoc_remove(start, k@));
    while i < m.len()
        invariant
            i <= m.len(),
            m.deep_view() == start,
            start == old(m).deep_view(),
            assoc_remove(start, k@) == start.take(i as int) + assoc_remove(start.skip(i as int), k@),
        decreases m.len() - i,
    {
        let ghost rest = start.skip(i as int);
        assert(rest[0] == start[i as int]);
        assert(start[i as int].0 == m@[i as int].0@);
        assert(rest.drop_first() =~= start.skip(i + 1));
        if str_eq(m[i].0.as_str(), k) {
            let _ = m.remove(i);
            assert(m.deep_view() =~= start.take(i as int) + rest.drop_first());
            return;
        }
        assert(start.take(i + 1) =~= start.take(i as int).push(start[i as int]));
        assert(start.take(i as int) + (seq![rest[0]] + assoc_remove(rest.drop_first(), k@))
            =~= start.take(i + 1) + assoc_remove(start.skip(i + 1), k@));
        i = i + 1;
    }
    assert(start.skip(i as int).len() == 0);
    assert(start.take(i as int) =~= start);
}

/// The entries of a mapping whose key and value are both strings.
pub fn string_pairs(entries: &Vec<(Yaml, Yaml)>) -> (out: Vec<(String, String)>)
    ensures
        out.deep_view() == str_pairs(entries@),
{
    let mut out: Vec<(String, String)> = Vec::new();
    let mut i: usize = 0;
    while i < entries.len()
        invariant
            i <= entries.len(),
            out.deep_view() == str_pairs(entries@.take(i as int)),
        decreases entries.len() - i,
    {
        assert(entries@.take(i + 1).drop_last() == entries@.take(i as int));
        assert(entries@.take(i + 1).last() == entries@[i as int]);
        match (as_str(&entries[i].0), as_str(&entries[i].1)) {
            (Some(k), Some(v)) => {
                assoc_put(&mut out, k.clone(), v.clone());
            },
            _ => {},
        }
        i = i + 1;
    }
    assert(entries@.take(entries.len() as int) == entries@);
    out
}


// ---------------------------------------------------------------------------
// Equality of values, as mapping keys are compared.

/// The bits of a floating-point number encode a NaN.
pub open spec fn float_is_nan(x: u64) -> bool {
    (x >> 52u64) & 0x7ffu64 == 0x7ffu64 && x & 0x000f_ffff_ffff_ffffu64 != 0
}

/// The bits of a floating-point number encode a zero of either sign.
pub open spec fn float_is_zero(x: u64) -> bool {
    x & 0x7fff_ffff_ffff_ffffu64 == 0
}

/// Two floating-point numbers are equal as YAML numbers: as IEEE 754
/// numbers, except that any two NaNs are equal (YAML has a single NaN).
pub open spec fn float_eq(x: u64, y: u64) -> bool {
    (float_is_nan(x) && float_is_nan(y)) || x == y || (float_is_zero(x) && float_is_zero(y))
}

/// A tag without its leading `!`, unless the tag is `!` alone.
pub open spec fn tag_name(t: Seq<char>) -> Seq<char> {
    if t.len() > 1 && t[0] == '!' {
        t.skip(1)
    } else {
        t
    }
}

/// Two values are equal as YAML values: sequences item by item, mappings
/// regardless of the order of their entries, tags by their names.
pub open spec fn yaml_eq(a: Yaml, b: Yaml) -> bool
    decreases a,
{
    match a {
        Yaml::Null => b is Null,
        Yaml::Bool(x) => b matches Yaml::Bool(y) && x == y,
        Yaml::UInt(x) => b matches Yaml::UInt(y) && x == y,
        Yaml::NegInt(x) => b matches Yaml::NegInt(y) && x == y,
        Yaml::Float(x) => b matches Yaml::Float(y) && float_eq(x, y),
        Yaml::String(x) => b matches Yaml::String(y) && x@ == y@,
        Yaml::Sequence(xs) => b matches Yaml::Sequence(ys) && xs@.len() == ys@.len() && forall|i: int|
            0 <= i < xs@.len() ==> yaml_eq(#[trigger] xs@[i], ys@[i]),
        Yaml::Mapping(xs) => b matches Yaml::Mapping(ys) && xs@.len() == ys@.len() && forall|i: int|
            0 <= i < xs@.len() ==> has_entry(#[trigger] xs@[i], ys@),
        Yaml::Tagged(t, x) => b matches Yaml::Tagged(u, y) && tag_name(t@) == tag_name(u@)
            && yaml_eq(*x, *y),
    }
}

/// Some entry of `entries` has a key equal to `e`'s and a value equal to
/// `e`'s.
pub open spec fn has_entry(e: (Yaml, Yaml), entries: Seq<(Yaml, Yaml)>) -> bool
    decreases e,
{
    exists|j: int|
        0 <= j < entries.len() && yaml_eq(e.0, #[trigger] entries[j].0) && yaml_eq(e.1, entries[j].1)
}

/// Whether two floating-point numbers are equal as YAML numbers.
fn float_equal(x: u64, y: u64) -> (r: bool)
    ensures
        r == float_eq(x, y),
{
    let x_nan = (x >> 52u64) & 0x7ffu64 == 0x7ffu64 && x & 0x000f_ffff_ffff_ffffu64 != 0;
    let y_nan = (y >> 52u64) & 0x7ffu64 == 0x7ffu64 && y & 0x000f_ffff_ffff_ffffu64 != 0;
    (x_nan && y_nan) || x == y || (x & 0x7fff_ffff_ffff_ffffu64 == 0 && y & 0x7fff_ffff_ffff_ffffu64
        == 0)
}

/// The name of a tag.
fn tag_name_of(t: &String) -> (r: Vec<char>)
    ensures
        r@ == tag_name(t@),
{
    let cs = crate::text::chars_of(t.as_str());
    if cs.len() > 1 && cs[0] == '!' {
        crate::text::slice_chars(&cs, 1, cs.len())
    } else {
        cs
    }
}

/// Whether two values are equal as YAML values.
#[verifier::loop_isolation(false)]
pub fn yaml_equal(a: &Yaml, b: &Yaml) -> (r: bool)
    ensures
        r == yaml_eq(*a, *b),
    decreases a,
{
    match a {
        Yaml::Null => match b {
            Yaml::Null => true,
            _ => false,
        },
        Yaml::Bool(x) => match b {
            Yaml::Bool(y) => *x == *y,
            _ => false,
        },
        Yaml::UInt(x) => match b {
            Yaml::UInt(y) => *x == *y,
            _ => false,
        },
        Yaml::NegInt(x) => match b {
            Yaml::NegInt(y) => *x == *y,
            _ => false,
        },
        Yaml::Float(x) => match b {
            Yaml::Float(y) => float_equal(*x, *y),
            _ => false,
        },
        Yaml::String(x) => match b {
            Yaml::String(y) => str_eq(x.as_str(), y.as_str()),
            _ => false,
        },
        Yaml::Sequence(xs) => match b {
            Yaml::Sequence(ys) => {
                if xs.len() != ys.len() {
                    return false;
                }
                let mut i: usize = 0;
                while i < xs.len()
                    invariant
                        i <= xs.len() == ys.len(),
                        forall|k: int| 0 <= k < i ==> yaml_eq(#[trigger] xs@[k], ys@[k]),
                    decreases xs.len() - i,
                {
                    if !yaml_equal(&xs[i], &ys[i]) {
                        return false;
                    }
                    i = i + 1;
                }
                true
            },
            _ => false,
        },
        Yaml::Mapping(xs) => match b {
            Yaml::Mapping(ys) => {
                if xs.len() != ys.len() {
                    return false;
                }
                let mut i: usize = 0;
                while i < xs.len()
                    invariant
                        i <= xs.len() == ys.len(),
                        forall|k: int| 0 <= k < i ==> has_entry(#[trigger] xs@[k], ys@),
                    decreases xs.len() - i,
                {
                    let mut found = false;
                    let mut j: usize = 0;
                    while j < ys.len() && !found
                        invariant
                            i < xs.len(),
                            j <= ys.len(),
                            found ==> has_entry(xs@[i as int], ys@),
                            !found ==> forall|m: int|
                                0 <= m < j ==> !(yaml_eq(xs@[i as int].0, #[trigger] ys@[m].0)
                                    && yaml_eq(xs@[i as int].1, ys@[m].1)),
                        decreases ys.len() - j,
                    {
                        if yaml_equal(&xs[i].0, &ys[j].0) && yaml_equal(&xs[i].1, &ys[j].1) {
                            found = true;
                        }
                        j = j + 1;
                    }
                    if !found {
                        proof {
                            if yaml_eq(*a, *b) {
                                assert(has_entry(xs@[i as int], ys@));
                                let m = choose|m: int|
                                    0 <= m < ys@.len() && yaml_eq(xs@[i as int].0, #[trigger] ys@[m].0)
                                        && yaml_eq(xs@[i as int].1, ys@[m].1);
                                assert(!(yaml_eq(xs@[i as int].0, ys@[m].0) && yaml_eq(
                                    xs@[i as int].1,
                                    ys@[m].1,
                                )));
                            }
                        }
                        return false;
                    }
                    i = i + 1;
                }
                assert(yaml_eq(*a, *b));
                true
            },
            _ => false,
        },
        Yaml::Tagged(t, x) => match b {
            Yaml::Tagged(u, y) => {
                let tn = tag_name_of(t);
                let un = tag_name_of(u);
                crate::text::vec_chars_eq(&tn, &un) && yaml_equal(x, y)
            },
            _ => false,
        },
    }
}


// ---------------------------------------------------------------------------
// Merging documents.

/// Some entry of `m` has a key equal to `k`.
pub open spec fn has_key(m: Seq<(Yaml, Yaml)>, k: Yaml) -> bool {
    exists|p: int| 0 <= p < m.len() && yaml_eq(k, #[trigger] m[p].0)
}

/// `p` is the position of the first entry of `m` whose key equals `k`.
pub open spec fn is_first_key(m: Seq<(Yaml, Yaml)>, k: Yaml, p: int) -> bool {
    &&& 0 <= p < m.len()
    &&& yaml_eq(k, m[p].0)
    &&& forall|q: int| 0 <= q < p ==> !yaml_eq(k, #[trigger] m[q].0)
}

/// The position of the first entry of `m` whose key equals `k`.
pub open spec fn first_key(m: Seq<(Yaml, Yaml)>, k: Yaml) -> int {
    choose|p: int| is_first_key(m, k, p)
}

/// The first position of a key is unique.
pub proof fn lemma_first_key(m: Seq<(Yaml, Yaml)>, k: Yaml, p: int)
    requires
        is_first_key(m, k, p),
    ensures
        has_key(m, k),
        first_key(m, k) == p,
{
    assert(yaml_eq(k, m[p].0));
    let f = first_key(m, k);
    assert(is_first_key(m, k, f));
    if f < p {
        assert(!yaml_eq(k, m[f].0));
    }
    if p < f {
        assert(!yaml_eq(k, m[p].0));
    }
}

/// The shape of one step of a merge of entries: when a key of `m` equals
/// the key of `e`, the first such entry keeps its key and place (its value
/// is merged with `e`'s) and the others stay; otherwise `e` is added at the
/// end.
pub open spec fn step_shape(m: Seq<(Yaml, Yaml)>, e: (Yaml, Yaml), r: Seq<(Yaml, Yaml)>) -> bool {
    if has_key(m, e.0) {
        let p = first_key(m, e.0);
        &&& r.len() == m.len()
        &&& r[p].0 == m[p].0
        &&& forall|q: int| 0 <= q < m.len() && q != p ==> r[q] == m[q]
    } else {
        r == m.push(e)
    }
}

/// `r` is `b` merged over `a`. Two mappings merge entry by entry: the
/// trace `t` holds the entries of `a` after each entry of `b` in turn was
/// merged in, each step of the shape `step_shape`, with a value whose key
/// was found merged recursively; any other pair gives `b`.
pub open spec fn merged(a: Yaml, b: Yaml, r: Yaml) -> bool
    decreases b,
{
    match a {
        Yaml::Mapping(am) => match b {
            Yaml::Mapping(bm) => r matches Yaml::Mapping(rm) && exists|t: Seq<Seq<(Yaml, Yaml)>>|
                {
                    &&& t.len() == bm@.len() + 1
                    &&& #[trigger] t[0] == am@
                    &&& t[bm@.len() as int] == rm@
                    &&& forall|i: int|
                        0 <= i < bm@.len() ==> #[trigger] step_shape(t[i], bm@[i], t[i + 1]) && (
                        has_key(t[i], bm@[i].0) ==> merged(
                            t[i][first_key(t[i], bm@[i].0)].1,
                            bm@[i].1,
                            t[i + 1][first_key(t[i], bm@[i].0)].1,
                        ))
                },
            _ => r == b,
        },
        _ => r == b,
    }
}

/// The first `n` steps of the trace `t` merge the entries `bm` in turn.
pub open spec fn trace_steps(t: Seq<Seq<(Yaml, Yaml)>>, bm: Seq<(Yaml, Yaml)>, n: int) -> bool {
    forall|k: int|
        0 <= k < n ==> #[trigger] step_shape(t[k], bm[k], t[k + 1]) && (has_key(t[k], bm[k].0)
            ==> merged(
            t[k][first_key(t[k], bm[k].0)].1,
            bm[k].1,
            t[k + 1][first_key(t[k], bm[k].0)].1,
        ))
}

/// A trace of the merge of two mappings' entries shows their merge.
pub proof fn lemma_merged_by_trace(a: Yaml, b: Yaml, r: Yaml, t: Seq<Seq<(Yaml, Yaml)>>)
    requires
        a is Mapping,
        b is Mapping,
        r is Mapping,
        t.len() == b->Mapping_0@.len() + 1,
        t[0] == a->Mapping_0@,
        t[b->Mapping_0@.len() as int] == r->Mapping_0@,
        trace_steps(t, b->Mapping_0@, b->Mapping_0@.len() as int),
    ensures
        merged(a, b, r),
{
    assert(t[0] == a->Mapping_0@);
}

/// Merging an empty mapping over a mapping leaves its entries as they were.
pub proof fn law_merge_empty_is_identity(a: Yaml, b: Yaml, r: Yaml)
    requires
        a is Mapping,
        b is Mapping,
        b->Mapping_0@.len() == 0,
        merged(a, b, r),
    ensures
        r is Mapping,
        r->Mapping_0@ == a->Mapping_0@,
{
}

/// Merges `b` over `a`: when both are mappings, each entry of `b` in turn
/// either merges its value into the entry of `a` with an equal key, which
/// keeps its key and place, or is added at the end; otherwise `b` replaces
/// `a`.
#[verifier::spinoff_prover]
#[verifier::rlimit(30)]
pub fn merge_yaml(a: Yaml, b: Yaml) -> (r: Yaml)
    ensures
        merged(a, b, r),
        a is Mapping && b is Mapping ==> r is Mapping && r->Mapping_0@.len() >= a->Mapping_0@.len()
            && forall|q: int|
            0 <= q < a->Mapping_0@.len() ==> #[trigger] r->Mapping_0@[q].0 == a->Mapping_0@[q].0,
    decreases b,
{
    let ghost a0 = a;
    let ghost b0 = b;
    match a {
        Yaml::Mapping(am) => match b {
            Yaml::Mapping(bm) => {
                let ghost amv = am@;
                let ghost bmv = bm@;
                let mut entries = am;
                let mut rest = bm;
                let ghost mut i: int = 0;
                let ghost mut t: Seq<Seq<(Yaml, Yaml)>> = seq![amv];
                assert(bmv.skip(0) =~= bmv);
                while rest.len() > 0
                    invariant
                        0 <= i <= bmv.len(),
                        rest@ == bmv.skip(i),
                        t.len() == i + 1,
                        t[0] == amv,
                        t[i] == entries@,
                        trace_steps(t, bmv, i),
                        b0 == Yaml::Mapping(bm),
                        b0 == b,
                        bm@ == bmv,
                        entries@.len() >= amv.len(),
                        forall|q: int| 0 <= q < amv.len() ==> #[trigger] entries@[q].0 == amv[q].0,
                    decreases rest.len(),
                {
                    let ghost cur = entries@;
                    let (k, v) = rest.remove(0);
                    assert(bmv[i] == (k, v));
                    let mut p: usize = 0;
                    let mut found = false;
                    while p < entries.len() && !found
                        invariant
                            p <= entries.len(),
                            entries@ == cur,
                            found ==> p < entries.len() && is_first_key(cur, k, p as int),
                            !found ==> forall|q: int| 0 <= q < p ==> !yaml_eq(k, #[trigger] cur[q].0),
                        decreases entries.len() - p + (if found { 0int } else { 1int }),
                    {
                        if yaml_equal(&k, &entries[p].0) {
                            found = true;
                        } else {
                            p = p + 1;
                        }
                    }
                    if found {
                        proof {
                            lemma_first_key(cur, k, p as int);
                        }
                        let (ok, ov) = entries.remove(p);
                        proof {
                            let bv = b0->Mapping_0;
                            assert(decreases_to!(b0 => b0->Mapping_0));
                            assert(decreases_to!(bv => bv@));
                            assert(decreases_to!(bv@ => bv@[i]));
                            assert(decreases_to!(bv@[i] => bv@[i].1));
                            assert(bv@[i].1 == v);
                        }
                        let nv = merge_yaml(ov, v);
                        entries.insert(p, (ok, nv));
                        assert(entries@ =~= cur.update(p as int, (ok, nv)));
                        assert(step_shape(cur, bmv[i], entries@));
                    } else {
                        assert(!has_key(cur, k));
                        entries.push((k, v));
                        assert(entries@ =~= cur.push(bmv[i]));
                    }
                    let ghost t2 = t.push(entries@);
                    assert(trace_steps(t2, bmv, i + 1)) by {
                        assert forall|j: int|
                            0 <= j < i + 1 implies #[trigger] step_shape(t2[j], bmv[j], t2[j + 1]) && (
                            has_key(t2[j], bmv[j].0) ==> merged(
                                t2[j][first_key(t2[j], bmv[j].0)].1,
                                bmv[j].1,
                                t2[j + 1][first_key(t2[j], bmv[j].0)].1,
                            )) by {
                            if j < i {
                                assert(t2[j] == t[j] && t2[j + 1] == t[j + 1]);
                                assert(step_shape(t[j], bmv[j], t[j + 1]));
                            } else {
                                assert(t2[j] == cur && t2[j + 1] == entries@);
                            }
                        }
                    }
                    assert(rest@ =~= bmv.skip(i + 1));
                    proof {
                        t = t2;
                        i = i + 1;
                    }
                }
                assert(i == bmv.len());
                assert(t[bmv.len() as int] == entries@);
                let r = Yaml::Mapping(entries);
                proof {
                    assert(b0->Mapping_0@ == bmv);
                    lemma_merged_by_trace(a0, b0, r, t);
                }
                r
            },
            other => other,
        },
        _ => b,
    }
}

} // verus!

