//! The two ways in which the data of a convention lies in attributes: nested
//! under one key, or field by field under keys that share a prefix.

use crate::error::{Error, ErrorView};
use crate::json::{
    distinct_keys, has_key, key_index, lemma_put, lookup, put, Attributes, Entries, Json, JsonView,
};
use crate::text::{lemma_without_prefix, strip_prefix, without_prefix};
use vstd::prelude::*;
use vstd::string::StringExecFns;

verus! {

/// `out` after each entry of `src` whose key starts with `prefix` was stored
/// in it under the rest of its key, in the order of `src`. An entry of `out`
/// that has such a key takes the new value.
pub open spec fn nested(prefix: Seq<char>, src: Entries, out: Entries) -> Entries
    decreases src.len(),
{
    if src.len() == 0 {
        out
    } else {
        let before = nested(prefix, src.drop_last(), out);
        match without_prefix(prefix, src.last().0) {
            Some(field) => put(before, field, src.last().1),
            None => before,
        }
    }
}

/// `entries` with `value` under `key`, unless `key` has a value already.
pub open spec fn fill(entries: Entries, key: Seq<char>, value: JsonView) -> Entries {
    if has_key(entries, key) {
        entries
    } else {
        entries.push((key, value))
    }
}

/// `out` after each entry of `src` whose key starts with `prefix` filled in
/// what `out` lacks: it enters under the rest of its key unless `out` has that
/// key already.
pub open spec fn filled(prefix: Seq<char>, src: Entries, out: Entries) -> Entries
    decreases src.len(),
{
    if src.len() == 0 {
        out
    } else {
        let before = filled(prefix, src.drop_last(), out);
        match without_prefix(prefix, src.last().0) {
            Some(field) => fill(before, field, src.last().1),
            None => before,
        }
    }
}

/// `out` after each field was stored under `prefix` followed by its name, in
/// the order of `fields`.
pub open spec fn spread(prefix: Seq<char>, fields: Entries, out: Entries) -> Entries
    decreases fields.len(),
{
    if fields.len() == 0 {
        out
    } else {
        put(spread(prefix, fields.drop_last(), out), prefix + fields.last().0, fields.last().1)
    }
}

/// The value that the combined form holds for a convention with the nested
/// key `key` and the prefix `prefix`. A nested object is completed by the
/// prefixed fields that it lacks; any other nested value stands alone; without
/// a nested value the prefixed fields make up the object.
pub open spec fn combined(key: Seq<char>, prefix: Seq<char>, attributes: Entries) -> JsonView {
    match lookup(attributes, key) {
        Some(JsonView::Object(fields)) => JsonView::Object(filled(prefix, attributes, fields)),
        Some(other) => other,
        None => JsonView::Object(nested(prefix, attributes, Entries::empty())),
    }
}

/// A sequence with distinct keys is its front with the last entry stored in
/// it, and the front's keys are distinct.
proof fn lemma_last_entry(src: Entries, other: Seq<char>)
    requires
        distinct_keys(src),
        src.len() > 0,
    ensures
        distinct_keys(src.drop_last()),
        !has_key(src.drop_last(), src.last().0),
        lookup(src, other) == if other == src.last().0 {
            Some(src.last().1)
        } else {
            lookup(src.drop_last(), other)
        },
{
    let front = src.drop_last();
    let n = front.len() as int;
    assert forall|i: int, j: int|
        0 <= i < front.len() && 0 <= j < front.len() && i != j implies #[trigger] front[i].0
        != #[trigger] front[j].0 by {
        assert(src[i].0 != src[j].0);
    }
    if has_key(front, src.last().0) {
        let i = key_index(front, src.last().0);
        assert(src[i].0 != src[n].0);
    }
    assert(src =~= put(front, src.last().0, src.last().1));
    lemma_put(front, src.last().0, src.last().1, other);
}

/// What reading the prefixed form into an object gives: no key twice, and
/// under each field what `src` holds under the prefix followed by the field,
/// else what `out` held under the field.
pub proof fn law_nested_fields(prefix: Seq<char>, src: Entries, out: Entries, field: Seq<char>)
    requires
        distinct_keys(src),
        distinct_keys(out),
    ensures
        distinct_keys(nested(prefix, src, out)),
        lookup(nested(prefix, src, out), field) == match lookup(src, prefix + field) {
            Some(v) => Some(v),
            None => lookup(out, field),
        },
    decreases src.len(),
{
    if src.len() > 0 {
        let front = src.drop_last();
        let before = nested(prefix, front, out);
        lemma_last_entry(src, prefix + field);
        law_nested_fields(prefix, front, out, field);
        match without_prefix(prefix, src.last().0) {
            Some(name) => {
                lemma_without_prefix(prefix, src.last().0, name);
                lemma_without_prefix(prefix, prefix + field, field);
                lemma_put(before, name, src.last().1, field);
            },
            None => {
                lemma_without_prefix(prefix, src.last().0, field);
            },
        }
    }
}

/// What completing an object from the prefixed form gives: no key twice, and
/// under each field what `out` held there, else what `src` holds under the
/// prefix followed by the field.
pub proof fn law_filled_fields(prefix: Seq<char>, src: Entries, out: Entries, field: Seq<char>)
    requires
        distinct_keys(src),
        distinct_keys(out),
    ensures
        distinct_keys(filled(prefix, src, out)),
        lookup(filled(prefix, src, out), field) == match lookup(out, field) {
            Some(v) => Some(v),
            None => lookup(src, prefix + field),
        },
    decreases src.len(),
{
    if src.len() > 0 {
        let front = src.drop_last();
        let before = filled(prefix, front, out);
        lemma_last_entry(src, prefix + field);
        law_filled_fields(prefix, front, out, field);
        match without_prefix(prefix, src.last().0) {
            Some(name) => {
                lemma_without_prefix(prefix, src.last().0, name);
                lemma_without_prefix(prefix, prefix + field, field);
                law_filled_fields(prefix, front, out, name);
                if !has_key(before, name) {
                    lemma_put(before, name, src.last().1, field);
                }
            },
            None => {
                lemma_without_prefix(prefix, src.last().0, field);
            },
        }
    }
}

/// No key starts with `prefix`.
pub open spec fn free_of(prefix: Seq<char>, entries: Entries) -> bool {
    forall|i: int| 0 <= i < entries.len() ==> without_prefix(prefix, (#[trigger] entries[i]).0) is None
}

/// The fields as they lie in attributes: each under `prefix` followed by its
/// name.
pub open spec fn prefixed(prefix: Seq<char>, fields: Entries) -> Entries {
    Seq::new(fields.len(), |i: int| (prefix + fields[i].0, fields[i].1))
}

/// Where `out` has no key that starts with the prefix, the fields come to
/// stand behind it, in their order.
proof fn lemma_spread_appends(prefix: Seq<char>, fields: Entries, out: Entries)
    requires
        distinct_keys(fields),
        free_of(prefix, out),
    ensures
        spread(prefix, fields, out) == out + prefixed(prefix, fields),
    decreases fields.len(),
{
    if fields.len() == 0 {
        assert(out + prefixed(prefix, fields) =~= out);
    } else {
        let front = fields.drop_last();
        let key = prefix + fields.last().0;
        lemma_last_entry(fields, key);
        lemma_spread_appends(prefix, front, out);
        let before = out + prefixed(prefix, front);
        if has_key(before, key) {
            let i = key_index(before, key);
            if i < out.len() {
                lemma_without_prefix(prefix, out[i].0, fields.last().0);
            } else {
                let j = i - out.len();
                lemma_without_prefix(prefix, prefix + front[j].0, front[j].0);
                lemma_without_prefix(prefix, prefix + front[j].0, fields.last().0);
                assert(fields[j].0 != fields[fields.len() - 1].0);
            }
        }
        assert(before.push((key, fields.last().1)) =~= out + prefixed(prefix, fields));
    }
}

/// Reading the prefixed form passes over entries whose key does not start
/// with the prefix.
proof fn lemma_nested_skips(prefix: Seq<char>, out: Entries)
    requires
        free_of(prefix, out),
    ensures
        nested(prefix, out, Entries::empty()) == Entries::empty(),
    decreases out.len(),
{
    if out.len() > 0 {
        assert(without_prefix(prefix, out[out.len() - 1].0) is None);
        assert forall|i: int| 0 <= i < out.drop_last().len() implies without_prefix(
            prefix,
            (#[trigger] out.drop_last()[i]).0,
        ) is None by {
            assert(out.drop_last()[i] == out[i]);
        }
        lemma_nested_skips(prefix, out.drop_last());
    }
}

/// An object that was written in prefixed form, into attributes of which no
/// key starts with the prefix, is read back as it was.
pub proof fn law_prefixed_round_trip(prefix: Seq<char>, fields: Entries, out: Entries)
    requires
        distinct_keys(fields),
        free_of(prefix, out),
    ensures
        nested(prefix, spread(prefix, fields, out), Entries::empty()) == fields,
    decreases fields.len(),
{
    lemma_spread_appends(prefix, fields, out);
    if fields.len() == 0 {
        assert(out + prefixed(prefix, fields) =~= out);
        lemma_nested_skips(prefix, out);
        assert(fields =~= Entries::empty());
    } else {
        let front = fields.drop_last();
        lemma_last_entry(fields, fields.last().0);
        lemma_spread_appends(prefix, front, out);
        law_prefixed_round_trip(prefix, front, out);
        let written = out + prefixed(prefix, fields);
        assert(written.drop_last() =~= out + prefixed(prefix, front));
        assert(written.last() == (prefix + fields.last().0, fields.last().1));
        lemma_without_prefix(prefix, prefix + fields.last().0, fields.last().0);
        assert(front.push(fields.last()) =~= fields);
    }
}

/// A value that was written in nested form is read back as it was.
pub proof fn law_nested_round_trip(out: Entries, key: Seq<char>, value: JsonView)
    requires
        distinct_keys(out),
    ensures
        lookup(put(out, key, value), key) == Some(value),
{
    lemma_put(out, key, value, key);
}

/// Turns the prefixed form into the nested one: the object `out`, with each
/// entry of `map` whose key starts with `prefix` stored under the rest of its
/// key.
pub fn nest_prefixed(prefix: &str, map: &Attributes, out: Attributes) -> (r: Json)
    ensures
        r@ == JsonView::Object(nested(prefix@, map@, out@)),
{
    let mut acc = out;
    let n = map.len();
    let mut i: usize = 0;
    while i < n
        invariant
            0 <= i <= n,
            n == map@.len(),
            acc@ == nested(prefix@, map@.take(i as int), out@),
        decreases n - i,
    {
        if let Some((key, value)) = map.entry(i) {
            proof {
                assert(map@.take(i + 1).drop_last() =~= map@.take(i as int));
                assert(map@.take(i + 1).last() == map@[i as int]);
            }
            if let Some(field) = strip_prefix(prefix, key) {
                acc.insert(field, value.clone());
            }
        }
        i += 1;
    }
    assert(map@.take(n as int) =~= map@);
    Json::Object(acc)
}

/// Completes the object `out` from the prefixed form: each entry of `map`
/// whose key starts with `prefix` enters under the rest of its key, unless
/// `out` has that key already.
pub fn fill_prefixed(prefix: &str, map: &Attributes, out: Attributes) -> (r: Json)
    ensures
        r@ == JsonView::Object(filled(prefix@, map@, out@)),
{
    let mut acc = out;
    let n = map.len();
    let mut i: usize = 0;
    while i < n
        invariant
            0 <= i <= n,
            n == map@.len(),
            acc@ == filled(prefix@, map@.take(i as int), out@),
        decreases n - i,
    {
        if let Some((key, value)) = map.entry(i) {
            proof {
                assert(map@.take(i + 1).drop_last() =~= map@.take(i as int));
                assert(map@.take(i + 1).last() == map@[i as int]);
            }
            if let Some(field) = strip_prefix(prefix, key) {
                if !acc.contains_key(field.as_str()) {
                    acc.insert(field, value.clone());
                }
            }
        }
        i += 1;
    }
    assert(map@.take(n as int) =~= map@);
    Json::Object(acc)
}

/// Writes `value` in nested form: under `key`, in place of what was there.
pub fn store_nested(key: &str, value: Json, output: &mut Attributes)
    ensures
        final(output)@ == put(old(output)@, key@, value@),
{
    output.insert(key.to_owned(), value);
}

/// Reads the nested form: the value under `key`. Fails with `KeyNotFound`
/// where there is none.
pub fn nested_value(key: &str, attributes: &Attributes) -> (r: Result<Json, Error>)
    ensures
        match r {
            Ok(v) => lookup(attributes@, key@) == Some(v@),
            Err(e) => lookup(attributes@, key@) is None && e@ == ErrorView::KeyNotFound(key@),
        },
{
    match attributes.get(key) {
        Some(v) => Ok(v.clone()),
        None => Err(Error::KeyNotFound(key.to_owned())),
    }
}

/// Writes `value` in prefixed form: each of its fields under `prefix`
/// followed by the field's name. Fails with `NotAnObject`, and leaves
/// `output` as it was, where `value` is no object.
pub fn store_prefixed(prefix: &str, value: Json, output: &mut Attributes) -> (r: Result<(), Error>)
    ensures
        match r {
            Ok(_) => value@ is Object && final(output)@ == spread(
                prefix@,
                value@->Object_0,
                old(output)@,
            ),
            Err(e) => !(value@ is Object) && e@ == ErrorView::NotAnObject && final(output)@ == old(
                output,
            )@,
        },
{
    let fields = match value {
        Json::Object(fields) => fields,
        _ => {
            return Err(Error::NotAnObject);
        },
    };
    let n = fields.len();
    let mut i: usize = 0;
    while i < n
        invariant
            0 <= i <= n,
            n == fields@.len(),
            output@ == spread(prefix@, fields@.take(i as int), old(output)@),
        decreases n - i,
    {
        if let Some((name, field)) = fields.entry(i) {
            proof {
                assert(fields@.take(i + 1).drop_last() =~= fields@.take(i as int));
                assert(fields@.take(i + 1).last() == fields@[i as int]);
            }
            let key = prefix.to_owned().concat(name);
            output.insert(key, field.clone());
        }
        i += 1;
    }
    assert(fields@.take(n as int) =~= fields@);
    Ok(())
}

/// Reads the prefixed form: the object made of the entries whose key starts
/// with `prefix`, each under the rest of its key. Without such entries the
/// object is empty.
pub fn prefixed_value(prefix: &str, attributes: &Attributes) -> (r: Json)
    ensures
        r@ == JsonView::Object(nested(prefix@, attributes@, Entries::empty())),
{
    nest_prefixed(prefix, attributes, Attributes::new())
}

/// Reads the combined form of a convention that has both the nested key `key`
/// and the prefix `prefix`.
pub fn combined_value(key: &str, prefix: &str, attributes: &Attributes) -> (r: Json)
    ensures
        r@ == combined(key@, prefix@, attributes@),
{
    match attributes.get(key) {
        Some(Json::Object(fields)) => fill_prefixed(prefix, attributes, fields.clone()),
        Some(other) => other.clone(),
        None => prefixed_value(prefix, attributes),
    }
}

} // verus!
