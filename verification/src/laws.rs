use vstd::prelude::*;

use crate::index::{is_string_key, str_position, str_position_from, IndexValue};
use crate::json::{
    f64_bits_finite, json_int_fits, json_of, json_of_entries, json_of_items, json_of_number,
    JsonModel, JsonNumberModel,
};
use crate::map::{key_position, key_position_from, lemma_key_position_from, string_insert};
use crate::toml_value::{toml_entries_model, toml_items_model, toml_model, TomlValue};
use crate::number::{Number, NumberModel};
use crate::patch::TryFromPatch;
use crate::value::{
    Color, ContainerModel, ContainerValue, DateTime, SimpleModel, SimpleValue, Time, Value,
    ValueModel, ValueType,
};
use crate::map::MapType;

verus! {

/// Whether a TOML value holds, anywhere in it, a date or time or a float that is not finite
/// (TOML writes `inf` and `nan`).
pub open spec fn toml_has_non_json_leaf(t: TomlValue) -> bool
    decreases t,
{
    match t {
        TomlValue::Datetime(_) => true,
        TomlValue::Float(bits) => !f64_bits_finite(bits),
        TomlValue::Array(items) => toml_items_have_non_json_leaf(items@),
        TomlValue::Table(entries) => toml_entries_have_non_json_leaf(entries@),
        _ => false,
    }
}

/// Whether one of a list of TOML values holds such a leaf.
pub open spec fn toml_items_have_non_json_leaf(s: Seq<TomlValue>) -> bool
    decreases s,
{
    if s.len() == 0 {
        false
    } else {
        toml_items_have_non_json_leaf(s.subrange(0, s.len() - 1)) || toml_has_non_json_leaf(s[s.len() - 1])
    }
}

/// Whether one of the values of a TOML table holds such a leaf.
pub open spec fn toml_entries_have_non_json_leaf(s: Seq<(String, TomlValue)>) -> bool
    decreases s,
{
    if s.len() == 0 {
        false
    } else {
        toml_entries_have_non_json_leaf(s.subrange(0, s.len() - 1)) || toml_has_non_json_leaf(
            s[s.len() - 1].1,
        )
    }
}

/// A value made from TOML has a JSON document exactly when no date or time and no float that
/// is not finite is in it: TOML integers always fit a JSON number, and table keys are strings.
pub proof fn law_toml_to_json(t: TomlValue)
    ensures
        json_of(toml_model(t)) is Some <==> !toml_has_non_json_leaf(t),
    decreases t,
{
    match t {
        TomlValue::Array(items) => {
            lemma_toml_items_to_json(items@);
        },
        TomlValue::Table(entries) => {
            lemma_toml_entries_to_json(entries@);
        },
        _ => {},
    }
}

proof fn lemma_toml_items_to_json(s: Seq<TomlValue>)
    ensures
        json_of_items(toml_items_model(s)) is Some <==> !toml_items_have_non_json_leaf(s),
    decreases s,
{
    if s.len() > 0 {
        let front = s.subrange(0, s.len() - 1);
        lemma_toml_items_to_json(front);
        law_toml_to_json(s[s.len() - 1]);
        let m = toml_items_model(s);
        assert(m.subrange(0, m.len() - 1) =~= toml_items_model(front)) by {
            lemma_toml_items_model_len(front);
        }
        lemma_toml_items_model_len(s);
    }
}

proof fn lemma_toml_items_model_len(s: Seq<TomlValue>)
    ensures
        toml_items_model(s).len() == s.len(),
    decreases s.len(),
{
    if s.len() > 0 {
        lemma_toml_items_model_len(s.subrange(0, s.len() - 1));
    }
}

proof fn lemma_toml_entries_model_len(s: Seq<(String, TomlValue)>)
    ensures
        toml_entries_model(s).len() == s.len(),
    decreases s.len(),
{
    if s.len() > 0 {
        lemma_toml_entries_model_len(s.subrange(0, s.len() - 1));
    }
}

proof fn lemma_toml_entries_to_json(s: Seq<(String, TomlValue)>)
    ensures
        json_of_entries(toml_entries_model(s)) is Some <==> !toml_entries_have_non_json_leaf(s),
    decreases s,
{
    if s.len() > 0 {
        let front = s.subrange(0, s.len() - 1);
        lemma_toml_entries_to_json(front);
        law_toml_to_json(s[s.len() - 1].1);
        let m = toml_entries_model(s);
        assert(m.subrange(0, m.len() - 1) =~= toml_entries_model(front)) by {
            lemma_toml_entries_model_len(front);
        }
        lemma_toml_entries_model_len(s);
    }
}

/// After the child that a position selects has been changed, the position selects the new
/// child, and every other position selects what it selected before.
pub proof fn law_index_position_write_read(index: usize, old: Value, new: Value, child: Value)
    requires
        index.replaces(old, new, child),
    ensures
        index.selects(new) == Some(child),
        forall|other: usize| other != index ==> #[trigger] other.selects(new) == other.selects(old),
{
}

proof fn lemma_str_position_keys(
    a: Seq<(Value, Value)>,
    b: Seq<(Value, Value)>,
    key: Seq<char>,
    from: int,
)
    requires
        a.len() == b.len(),
        forall|k: int| 0 <= k < a.len() ==> #[trigger] a[k].0 == b[k].0,
    ensures
        str_position_from(a, key, from) == str_position_from(b, key, from),
    decreases a.len() - from,
{
    if 0 <= from < a.len() {
        lemma_str_position_keys(a, b, key, from + 1);
    }
}

/// After the child that a string key selects has been changed, the key selects the new
/// child.
pub proof fn law_index_key_write_read(key: &str, old: Value, new: Value, child: Value)
    requires
        key.replaces(old, new, child),
    ensures
        key.selects(new) == Some(child),
{
    let o = old->Container_0->Object_0.map@;
    let n = new->Container_0->Object_0.map@;
    let p = str_position(o, key@).unwrap();
    crate::index::lemma_str_position_from(o, key@, 0);
    assert forall|k: int| 0 <= k < o.len() implies #[trigger] o[k].0 == n[k].0 by {}
    lemma_str_position_keys(o, n, key@, 0);
}

/// After inserting a value under a key, the key is found at an entry holding that value; the
/// map grows by one entry exactly when the key was not there before.
pub proof fn law_string_insert<V>(entries: Seq<(String, V)>, key: String, value: V)
    ensures
        key_position(string_insert(entries, key, value), key@) matches Some(p) && string_insert(
            entries,
            key,
            value,
        )[p].1 == value,
        string_insert(entries, key, value).len() == entries.len() + (if key_position(
            entries,
            key@,
        ) is None {
            1int
        } else {
            0int
        }),
{
    lemma_key_position_from(entries, key@, 0);
    let r = string_insert(entries, key, value);
    match key_position(entries, key@) {
        Some(p) => {
            assert forall|k: int| 0 <= k < p implies #[trigger] r[k].0@ != key@ by {
                lemma_key_position_before(entries, key@, 0, k);
            }
            lemma_key_position_prefix(r, key@, 0, p);
        },
        None => {
            assert forall|k: int| 0 <= k < entries.len() implies #[trigger] r[k].0@ != key@ by {}
            lemma_key_position_prefix(r, key@, 0, entries.len() as int);
        },
    }
}

proof fn lemma_key_position_before<V>(entries: Seq<(String, V)>, key: Seq<char>, from: int, k: int)
    requires
        0 <= from <= k,
        key_position_from(entries, key, from) matches Some(p) && k < p,
    ensures
        entries[k].0@ != key,
    decreases k - from,
{
    if from < k {
        lemma_key_position_before(entries, key, from + 1, k);
    }
}

proof fn lemma_key_position_prefix<V>(entries: Seq<(String, V)>, key: Seq<char>, from: int, p: int)
    requires
        0 <= from <= p < entries.len(),
        entries[p].0@ == key,
        forall|k: int| from <= k < p ==> #[trigger] entries[k].0@ != key,
    ensures
        key_position_from(entries, key, from) == Some(p),
    decreases p - from,
{
    if from < p {
        lemma_key_position_prefix(entries, key, from + 1, p);
    }
}

/// Every 64-bit integer, signed or unsigned, fits a JSON number.
pub proof fn law_machine_integers_fit_json(i: i64, u: u64)
    ensures
        json_int_fits(i as int),
        json_int_fits(u as int),
{
}


/// A number made from a `u128` has a JSON number exactly when it is at most `u64::MAX`,
/// whether it is held as an integer or as a big integer.
pub proof fn law_u128_json(v: u128)
    ensures
        json_of_number(NumberModel::Int(v as int)) is Some <==> v <= u64::MAX,
        json_of_number(NumberModel::BigInt(v as int)) is Some <==> v <= u64::MAX,
{
}

/// Each constructor makes a value of its own kind.
pub proof fn law_constructor_kinds(
    s: String,
    b: bool,
    n: Number,
    items: Vec<Value>,
    map: MapType<Value, Value>,
)
    ensures
        Value::Simple(SimpleValue::String(s))@.value_type() == ValueType::String,
        Value::Simple(SimpleValue::Bool(b))@.value_type() == ValueType::Bool,
        Value::Simple(SimpleValue::Number(n))@.value_type() == ValueType::Number,
        Value::Simple(SimpleValue::Null)@.value_type() == ValueType::Null,
        Value::Container(ContainerValue::Vec(items))@.value_type() == ValueType::Vec,
        Value::Container(ContainerValue::Object(map))@.value_type() == ValueType::Object,
{
}

/// A string value reads back as its string, a boolean value as its boolean, and a list of
/// string values as the list of those strings.
pub proof fn law_try_from_reads_back(s: String, b: bool, items: Vec<Value>, strings: Vec<String>)
    requires
        items@.len() == strings@.len(),
        forall|i: int|
            0 <= i < items@.len() ==> #[trigger] items@[i] == Value::Simple(
                SimpleValue::String(strings@[i]),
            ),
    ensures
        <String as TryFromPatch>::converts_to(Value::Simple(SimpleValue::String(s)), s),
        <bool as TryFromPatch>::converts_to(Value::Simple(SimpleValue::Bool(b)), b),
        <Vec<String> as TryFromPatch>::converts_to(
            Value::Container(ContainerValue::Vec(items)),
            strings,
        ),
        forall|other: String|
            #[trigger] <String as TryFromPatch>::converts_to(
                Value::Simple(SimpleValue::String(s)),
                other,
            ) ==> other == s,
{
}


/// The JSON array of a list has one document for each item, at the same position: the
/// document of that item.
pub proof fn law_json_array_items(items: Seq<ValueModel>)
    ensures
        json_of_items(items) matches Some(js) ==> {
            &&& js.len() == items.len()
            &&& forall|i: int| 0 <= i < items.len() ==> json_of(#[trigger] items[i]) == Some(js[i])
        },
    decreases items.len(),
{
    if items.len() > 0 {
        let front = items.subrange(0, items.len() - 1);
        law_json_array_items(front);
        if let Some(js) = json_of_items(items) {
            assert forall|i: int| 0 <= i < items.len() implies json_of(#[trigger] items[i]) == Some(
                js[i],
            ) by {
                if i < items.len() - 1 {
                    assert(items[i] == front[i]);
                }
            }
        }
    }
}

/// The JSON object of a map holds each entry's key, read as a string, under which stands the
/// document of the last entry with that key; it holds no other key.
pub proof fn law_json_object_entries(entries: Seq<(ValueModel, ValueModel)>)
    ensures
        json_of_entries(entries) matches Some(m) ==> {
            &&& forall|i: int|
                0 <= i < entries.len() ==> {
                    &&& (#[trigger] entries[i]).0 matches ValueModel::Simple(SimpleModel::String(k))
                    &&& m.dom().contains(k)
                    &&& json_of(entries[i].1) is Some
                    &&& (forall|j: int| i < j < entries.len() ==> entries[j].0 != entries[i].0)
                        ==> m[k] == json_of(entries[i].1).unwrap()
                }
            &&& forall|k: Seq<char>|
                #[trigger] m.dom().contains(k) ==> exists|i: int|
                    0 <= i < entries.len() && #[trigger] entries[i].0 == ValueModel::Simple(
                        SimpleModel::String(k),
                    )
        },
    decreases entries.len(),
{
    if entries.len() > 0 {
        let n = entries.len() - 1;
        let front = entries.subrange(0, n);
        law_json_object_entries(front);
        if let Some(m) = json_of_entries(entries) {
            let mf = json_of_entries(front).unwrap();
            assert forall|i: int| 0 <= i < entries.len() implies {
                &&& (#[trigger] entries[i]).0 matches ValueModel::Simple(SimpleModel::String(k))
                &&& m.dom().contains(k)
                &&& json_of(entries[i].1) is Some
                &&& (forall|j: int| i < j < entries.len() ==> entries[j].0 != entries[i].0) ==> m[k]
                    == json_of(entries[i].1).unwrap()
            } by {
                if i < n {
                    assert(entries[i] == front[i]);
                    if (forall|j: int| i < j < entries.len() ==> entries[j].0 != entries[i].0) {
                        assert(entries[n].0 != entries[i].0);
                    }
                }
            }
            assert forall|k: Seq<char>| #[trigger] m.dom().contains(k) implies exists|i: int|
                0 <= i < entries.len() && #[trigger] entries[i].0 == ValueModel::Simple(
                    SimpleModel::String(k),
                ) by {
                if entries[n].0 == ValueModel::Simple(SimpleModel::String(k)) {
                } else {
                    assert(mf.dom().contains(k));
                    let i = choose|i: int|
                        0 <= i < front.len() && #[trigger] front[i].0 == ValueModel::Simple(
                            SimpleModel::String(k),
                        );
                    assert(entries[i] == front[i]);
                }
            }
        }
    }
}

/// A lookup by string key finds a value exactly in a map that has an entry with that key,
/// and then it is the value of the first such entry.
pub proof fn law_key_lookup(key: &str, v: Value)
    ensures
        key.selects(v) is Some <==> (v matches Value::Container(ContainerValue::Object(m))
            && exists|k: int|
            0 <= k < m.map@.len() && #[trigger] is_string_key(m.map@[k].0, key@)),
        key.selects(v) matches Some(x) ==> (v matches Value::Container(ContainerValue::Object(m))
            && exists|p: int|
            0 <= p < m.map@.len() && #[trigger] is_string_key(m.map@[p].0, key@) && x
                == m.map@[p].1 && forall|k: int|
                0 <= k < p ==> !#[trigger] is_string_key(m.map@[k].0, key@)),
{
    if let Value::Container(ContainerValue::Object(m)) = v {
        crate::index::lemma_str_position_from(m.map@, key@, 0);
        if let Some(p) = str_position(m.map@, key@) {
            assert(is_string_key(m.map@[p].0, key@));
        }
    }
}


/// Looking a child up for change and leaving it as it was leaves the value as it was, for a
/// position.
pub proof fn law_index_position_unchanged(index: usize, old: Value, new: Value, child: Value)
    requires
        index.replaces(old, new, child),
        index.selects(old) == Some(child),
    ensures
        new@ == old@,
{
    match (old, new) {
        (Value::Container(ContainerValue::Vec(o)), Value::Container(ContainerValue::Vec(n))) => {
            assert(n@ =~= o@);
        },
        (
            Value::Container(ContainerValue::Object(o)),
            Value::Container(ContainerValue::Object(n)),
        ) => {
            assert(n.map@ =~= o.map@);
        },
        _ => {},
    }
}

/// Looking a child up for change and leaving it as it was leaves the value as it was, for a
/// string key.
pub proof fn law_index_key_unchanged(key: &str, old: Value, new: Value, child: Value)
    requires
        key.replaces(old, new, child),
        key.selects(old) == Some(child),
    ensures
        new@ == old@,
{
    if let (
        Value::Container(ContainerValue::Object(o)),
        Value::Container(ContainerValue::Object(n)),
    ) = (old, new) {
        crate::index::lemma_str_position_from(o.map@, key@, 0);
        let p = str_position(o.map@, key@).unwrap();
        assert(o.map@[p] == (o.map@[p].0, child));
        assert(n.map@ =~= o.map@);
    }
}

proof fn lemma_toml_items_model_index(s: Seq<TomlValue>)
    ensures
        toml_items_model(s).len() == s.len(),
        forall|i: int| 0 <= i < s.len() ==> #[trigger] toml_items_model(s)[i] == toml_model(s[i]),
    decreases s.len(),
{
    if s.len() > 0 {
        lemma_toml_items_model_index(s.subrange(0, s.len() - 1));
    }
}

proof fn lemma_toml_entries_model_index(s: Seq<(String, TomlValue)>)
    ensures
        toml_entries_model(s).len() == s.len(),
        forall|i: int|
            0 <= i < s.len() ==> #[trigger] toml_entries_model(s)[i] == (
                ValueModel::Simple(SimpleModel::String(s[i].0@)),
                toml_model(s[i].1),
            ),
    decreases s.len(),
{
    if s.len() > 0 {
        lemma_toml_entries_model_index(s.subrange(0, s.len() - 1));
    }
}

/// A TOML array becomes a list with one item for each item of the array, in the same order,
/// each the value made from that item.
pub proof fn law_toml_array(items: Vec<TomlValue>)
    ensures
        toml_model(TomlValue::Array(items)) matches ValueModel::Container(ContainerModel::Vec(ms)) && {
            &&& ms.len() == items@.len()
            &&& forall|i: int| 0 <= i < items@.len() ==> #[trigger] ms[i] == toml_model(items@[i])
        },
{
    lemma_toml_items_model_index(items@);
}

/// A TOML table becomes a map with one entry for each entry of the table, in the same order:
/// the key as a string value, and the value made from the table's value.
pub proof fn law_toml_table(entries: Vec<(String, TomlValue)>)
    ensures
        toml_model(TomlValue::Table(entries)) matches ValueModel::Container(ContainerModel::Object(es))
            && {
            &&& es.len() == entries@.len()
            &&& forall|i: int|
                0 <= i < entries@.len() ==> #[trigger] es[i] == (
                    ValueModel::Simple(SimpleModel::String(entries@[i].0@)),
                    toml_model(entries@[i].1),
                )
        },
{
    lemma_toml_entries_model_index(entries@);
}


/// Each simple value is of its own kind, whatever it holds, and each container too.
pub proof fn law_every_kind(
    n: Number,
    s: String,
    t: Time,
    d: DateTime,
    magnitude: u64,
    unit: String,
    c: Color,
    bytes: Vec<u8>,
    b: bool,
    items: Vec<Value>,
    map: MapType<Value, Value>,
)
    ensures
        Value::Simple(SimpleValue::Null)@.value_type() == ValueType::Null,
        Value::Simple(SimpleValue::Bool(b))@.value_type() == ValueType::Bool,
        Value::Simple(SimpleValue::Number(n))@.value_type() == ValueType::Number,
        Value::Simple(SimpleValue::String(s))@.value_type() == ValueType::String,
        Value::Simple(SimpleValue::Time(t))@.value_type() == ValueType::Time,
        Value::Simple(SimpleValue::DateTime(d))@.value_type() == ValueType::DateTime,
        Value::Simple(SimpleValue::Angle(magnitude, unit))@.value_type() == ValueType::Angle,
        Value::Simple(SimpleValue::Literal(s))@.value_type() == ValueType::Literal,
        Value::Simple(SimpleValue::Length(magnitude, unit))@.value_type() == ValueType::Length,
        Value::Simple(SimpleValue::Color(c))@.value_type() == ValueType::Color,
        Value::Simple(SimpleValue::Bytes(bytes, unit))@.value_type() == ValueType::Bytes,
        Value::Container(ContainerValue::Vec(items))@.value_type() == ValueType::Vec,
        Value::Container(ContainerValue::Object(map))@.value_type() == ValueType::Object,
{
}

/// The empty value, a boolean and a string have the JSON document holding the same content;
/// the other simple values that are not numbers have none.
pub proof fn law_json_of_simple_values(
    b: bool,
    s: String,
    t: Time,
    d: DateTime,
    magnitude: u64,
    unit: String,
    c: Color,
    bytes: Vec<u8>,
)
    ensures
        json_of(Value::Simple(SimpleValue::Null)@) == Some(JsonModel::Null),
        json_of(Value::Simple(SimpleValue::Bool(b))@) == Some(JsonModel::Bool(b)),
        json_of(Value::Simple(SimpleValue::String(s))@) == Some(JsonModel::String(s@)),
        json_of(Value::Simple(SimpleValue::Time(t))@) is None,
        json_of(Value::Simple(SimpleValue::DateTime(d))@) is None,
        json_of(Value::Simple(SimpleValue::Angle(magnitude, unit))@) is None,
        json_of(Value::Simple(SimpleValue::Literal(s))@) is None,
        json_of(Value::Simple(SimpleValue::Length(magnitude, unit))@) is None,
        json_of(Value::Simple(SimpleValue::Color(c))@) is None,
        json_of(Value::Simple(SimpleValue::Bytes(bytes, unit))@) is None,
{
}

/// A number's JSON document is the JSON number holding the same number: an integer keeps its
/// value where a JSON number can hold it, a finite float keeps its exact bits; an integer out
/// of that range and a float that is not finite have no JSON document.
pub proof fn law_json_of_numbers(i: i128, big: int, bits: u64)
    ensures
        json_int_fits(i as int) ==> json_of(Value::Simple(SimpleValue::Number(Number::Int(i)))@)
            == Some(JsonModel::Number(JsonNumberModel::Int(i as int))),
        !json_int_fits(i as int) ==> json_of(Value::Simple(SimpleValue::Number(Number::Int(i)))@)
            is None,
        i64::MIN <= big <= u64::MAX ==> json_of_number(NumberModel::BigInt(big)) == Some(
            JsonNumberModel::Int(big),
        ),
        !(i64::MIN <= big <= u64::MAX) ==> json_of_number(NumberModel::BigInt(big)) is None,
        f64_bits_finite(bits) ==> json_of(Value::Simple(SimpleValue::Number(Number::Float(bits)))@)
            == Some(JsonModel::Number(JsonNumberModel::Float(bits))),
        !f64_bits_finite(bits) ==> json_of(
            Value::Simple(SimpleValue::Number(Number::Float(bits)))@,
        ) is None,
{
}

/// The finiteness test reads only the exponent: a float and its negation are finite
/// together, infinities and NaNs (exponent all ones) are not finite, zeros are.
pub proof fn law_f64_bits_finite(bits: u64)
    ensures
        f64_bits_finite(bits) == f64_bits_finite(bits ^ 0x8000_0000_0000_0000u64),
        f64_bits_finite(bits) <==> (bits & 0x7ff0_0000_0000_0000u64) != 0x7ff0_0000_0000_0000u64,
        f64_bits_finite(0u64),
        f64_bits_finite(0x8000_0000_0000_0000u64),
        !f64_bits_finite(0x7ff0_0000_0000_0000u64),
        !f64_bits_finite(0xfff0_0000_0000_0000u64),
        !f64_bits_finite(0x7ff8_0000_0000_0000u64),
{
    assert(((bits >> 52u64) & 0x7ffu64 != 0x7ffu64) == (((bits ^ 0x8000_0000_0000_0000u64)
        >> 52u64) & 0x7ffu64 != 0x7ffu64)) by (bit_vector);
    assert(((bits >> 52u64) & 0x7ffu64 != 0x7ffu64) <==> (bits & 0x7ff0_0000_0000_0000u64)
        != 0x7ff0_0000_0000_0000u64) by (bit_vector);
    assert((0u64 >> 52u64) & 0x7ffu64 != 0x7ffu64) by (bit_vector);
    assert((0x8000_0000_0000_0000u64 >> 52u64) & 0x7ffu64 != 0x7ffu64) by (bit_vector);
    assert(!((0x7ff0_0000_0000_0000u64 >> 52u64) & 0x7ffu64 != 0x7ffu64)) by (bit_vector);
    assert(!((0xfff0_0000_0000_0000u64 >> 52u64) & 0x7ffu64 != 0x7ffu64)) by (bit_vector);
    assert(!((0x7ff8_0000_0000_0000u64 >> 52u64) & 0x7ffu64 != 0x7ffu64)) by (bit_vector);
}

/// Each TOML leaf becomes the simple value holding the same content: a string the same
/// string, an integer the same integer, a float the same bits, a boolean the same boolean,
/// a date-time the same date, time and offset.
pub proof fn law_toml_leaves(s: String, i: i64, bits: u64, b: bool, d: DateTime)
    ensures
        toml_model(TomlValue::String(s)) == ValueModel::Simple(SimpleModel::String(s@)),
        toml_model(TomlValue::Integer(i)) == Value::Simple(
            SimpleValue::Number(Number::Int(i as i128)),
        )@,
        toml_model(TomlValue::Float(bits)) == Value::Simple(
            SimpleValue::Number(Number::Float(bits)),
        )@,
        toml_model(TomlValue::Boolean(b)) == Value::Simple(SimpleValue::Bool(b))@,
        toml_model(TomlValue::Datetime(d)) == Value::Simple(SimpleValue::DateTime(d))@,
        toml_model(TomlValue::Datetime(d)) matches ValueModel::Simple(SimpleModel::DateTime(e))
            && e.date == d.date && e.time == d.time && e.offset == d.offset,
{
}

/// A boolean value reads back only as its own boolean, and only boolean values read back as
/// booleans.
pub proof fn law_bool_reads_back(v: Value, b: bool, other: bool)
    ensures
        <bool as TryFromPatch>::converts(Value::Simple(SimpleValue::Bool(b))),
        <bool as TryFromPatch>::converts_to(Value::Simple(SimpleValue::Bool(b)), other) <==> other
            == b,
        <bool as TryFromPatch>::converts(v) <==> (v matches Value::Simple(SimpleValue::Bool(_))),
        <bool as TryFromPatch>::converts_to(v, other) ==> v == Value::Simple(SimpleValue::Bool(other)),
{
}

/// A string value reads back only as its own string, and only string values read back as
/// strings.
pub proof fn law_string_reads_back(v: Value, s: String, other: String)
    ensures
        <String as TryFromPatch>::converts(Value::Simple(SimpleValue::String(s))),
        <String as TryFromPatch>::converts_to(Value::Simple(SimpleValue::String(s)), other) <==> other
            == s,
        <String as TryFromPatch>::converts(v) <==> (v matches Value::Simple(SimpleValue::String(_))),
        <String as TryFromPatch>::converts_to(v, other) ==> v == Value::Simple(
            SimpleValue::String(other),
        ),
{
}

} // verus!
