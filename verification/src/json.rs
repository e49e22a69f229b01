use vstd::prelude::*;

use crate::map::{
    key_position, lemma_key_position_from, lemma_string_insert_distinct, keys_distinct,
    string_insert, MapType,
};
use crate::number::NumberModel;
use crate::value::{
    entries_model, lemma_entries_model, lemma_values_model, values_model, ContainerModel,
    ContainerValue, SimpleModel, SimpleValue, Value, ValueModel,
};

verus! {

/// A number of a JSON document.
///
/// Integers are those that a JSON number holds; a 64-bit float, always finite, is held by its
/// IEEE-754 bit pattern; a big float is held as it is, and whether it is finite, which JSON
/// asks, is decided where it is read as a float.
#[derive(Debug, PartialEq)]
pub enum JsonNumber {
    Int(i128),
    Float(u64),
    BigFloat(num_bigfloat::BigFloat),
}

/// A JSON document. An object is a map from strings to documents: inserting a key that it
/// has replaces the document under that key.
#[derive(Debug, PartialEq)]
pub enum JsonValue {
    Null,
    Bool(bool),
    Number(JsonNumber),
    String(String),
    Array(Vec<JsonValue>),
    Object(MapType<String, JsonValue>),
}

/// The content of a [`JsonNumber`].
pub enum JsonNumberModel {
    Int(int),
    Float(u64),
    BigFloat(num_bigfloat::BigFloat),
}

/// The content of a [`JsonValue`].
pub enum JsonModel {
    Null,
    Bool(bool),
    Number(JsonNumberModel),
    String(Seq<char>),
    Array(Seq<JsonModel>),
    Object(Map<Seq<char>, JsonModel>),
}

impl View for JsonNumber {
    type V = JsonNumberModel;

    open spec fn view(&self) -> JsonNumberModel {
        match self {
            JsonNumber::Int(i) => JsonNumberModel::Int(*i as int),
            JsonNumber::Float(b) => JsonNumberModel::Float(*b),
            JsonNumber::BigFloat(f) => JsonNumberModel::BigFloat(*f),
        }
    }
}

/// The contents of a list of JSON documents.
pub open spec fn json_values_model(s: Seq<JsonValue>) -> Seq<JsonModel>
    decreases s,
{
    if s.len() == 0 {
        Seq::empty()
    } else {
        json_values_model(s.subrange(0, s.len() - 1)).push(s[s.len() - 1].model())
    }
}

/// The map that a list of JSON object entries stands for: the entries inserted in order, so
/// a later entry replaces an earlier one with the same key.
pub open spec fn json_object_model(s: Seq<(String, JsonValue)>) -> Map<Seq<char>, JsonModel>
    decreases s,
{
    if s.len() == 0 {
        Map::empty()
    } else {
        json_object_model(s.subrange(0, s.len() - 1)).insert(
            s[s.len() - 1].0@,
            s[s.len() - 1].1.model(),
        )
    }
}

impl JsonValue {
    /// The content of the document.
    pub open spec fn model(self) -> JsonModel
        decreases self,
    {
        match self {
            JsonValue::Null => JsonModel::Null,
            JsonValue::Bool(b) => JsonModel::Bool(b),
            JsonValue::Number(n) => JsonModel::Number(n@),
            JsonValue::String(s) => JsonModel::String(s@),
            JsonValue::Array(items) => JsonModel::Array(json_values_model(items@)),
            JsonValue::Object(m) => JsonModel::Object(json_object_model(m.map@)),
        }
    }
}

impl View for JsonValue {
    type V = JsonModel;

    open spec fn view(&self) -> JsonModel {
        self.model()
    }
}

/// Whether a JSON number holds the integer `i`: it lies between `i64::MIN` and `u64::MAX`.
pub open spec fn json_int_fits(i: int) -> bool {
    i64::MIN <= i <= u64::MAX
}

/// Whether the IEEE-754 double with these bits is finite: its exponent field is not all ones.
pub open spec fn f64_bits_finite(bits: u64) -> bool {
    (bits >> 52u64) & 0x7ffu64 != 0x7ffu64
}

/// The JSON number of a number, if it has one.
///
/// A big float is carried as it is, whatever its value: this function does not say whether
/// the big float converts to a finite 64-bit float, which JSON needs. That is decided where
/// the conversion is made, and there a big float without a finite conversion gets no JSON
/// number; so every function whose contract goes through this one gives `Some` for big floats
/// where the full conversion to JSON may still give `None`.
pub open spec fn json_of_number(n: NumberModel) -> Option<JsonNumberModel> {
    match n {
        NumberModel::Int(i) => if json_int_fits(i) {
            Some(JsonNumberModel::Int(i))
        } else {
            None
        },
        NumberModel::BigInt(i) => if json_int_fits(i) {
            Some(JsonNumberModel::Int(i))
        } else {
            None
        },
        NumberModel::Float(b) => if f64_bits_finite(b) {
            Some(JsonNumberModel::Float(b))
        } else {
            None
        },
        NumberModel::BigFloat(f) => Some(JsonNumberModel::BigFloat(f)),
    }
}

/// The JSON document of a simple value, if it has one: the empty value, booleans, numbers
/// and strings have one.
pub open spec fn json_of_simple(s: SimpleModel) -> Option<JsonModel> {
    match s {
        SimpleModel::Null => Some(JsonModel::Null),
        SimpleModel::Bool(b) => Some(JsonModel::Bool(b)),
        SimpleModel::Number(n) => match json_of_number(n) {
            Some(j) => Some(JsonModel::Number(j)),
            None => None,
        },
        SimpleModel::String(s) => Some(JsonModel::String(s)),
        _ => None,
    }
}

/// The JSON document of a value, if it has one: a list has one when each of its items has
/// one, a map when each key is a string and each value has one.
pub open spec fn json_of(v: ValueModel) -> Option<JsonModel>
    decreases v,
{
    match v {
        ValueModel::Simple(s) => json_of_simple(s),
        ValueModel::Container(ContainerModel::Vec(items)) => match json_of_items(items) {
            Some(js) => Some(JsonModel::Array(js)),
            None => None,
        },
        ValueModel::Container(ContainerModel::Object(entries)) => match json_of_entries(entries) {
            Some(js) => Some(JsonModel::Object(js)),
            None => None,
        },
    }
}

/// The JSON documents of a list of values, if each has one.
pub open spec fn json_of_items(items: Seq<ValueModel>) -> Option<Seq<JsonModel>>
    decreases items,
{
    if items.len() == 0 {
        Some(Seq::empty())
    } else {
        match (json_of_items(items.subrange(0, items.len() - 1)), json_of(items[items.len() - 1])) {
            (Some(js), Some(j)) => Some(js.push(j)),
            _ => None,
        }
    }
}

/// The JSON object of a list of map entries, if each key is a string and each value has a
/// JSON document: the entries inserted in order, a later one replacing an earlier one with
/// the same key.
pub open spec fn json_of_entries(entries: Seq<(ValueModel, ValueModel)>) -> Option<
    Map<Seq<char>, JsonModel>,
>
    decreases entries,
{
    if entries.len() == 0 {
        Some(Map::empty())
    } else {
        match (
            json_of_entries(entries.subrange(0, entries.len() - 1)),
            entries[entries.len() - 1].0,
            json_of(entries[entries.len() - 1].1),
        ) {
            (Some(js), ValueModel::Simple(SimpleModel::String(k)), Some(j)) => Some(js.insert(k, j)),
            _ => None,
        }
    }
}


/// Replacing the document of entry `p` of an object with distinct keys replaces the
/// document under that entry's key.
pub proof fn lemma_object_update(s: Seq<(String, JsonValue)>, p: int, v: JsonValue)
    requires
        keys_distinct(s),
        0 <= p < s.len(),
    ensures
        json_object_model(s.update(p, (s[p].0, v))) == json_object_model(s).insert(
            s[p].0@,
            v.model(),
        ),
    decreases s.len(),
{
    let n = s.len() - 1;
    let u = s.update(p, (s[p].0, v));
    let front = s.subrange(0, n);
    if p == n {
        assert(u.subrange(0, n) =~= front);
        assert(json_object_model(u) =~= json_object_model(s).insert(s[p].0@, v.model()));
    } else {
        assert(u.subrange(0, n) =~= front.update(p, (front[p].0, v)));
        assert(keys_distinct(front)) by {
            assert forall|i: int, j: int| 0 <= i < j < front.len() implies #[trigger] front[i].0@
                != #[trigger] front[j].0@ by {
                assert(front[i] == s[i]);
                assert(front[j] == s[j]);
            }
        }
        lemma_object_update(front, p, v);
        assert(s[p].0@ != s[n].0@);
        assert(u[n] == s[n]);
        assert(json_object_model(u) =~= json_object_model(s).insert(s[p].0@, v.model()));
    }
}

/// Inserting into an object with distinct keys inserts into the map it stands for.
pub proof fn lemma_object_insert(s: Seq<(String, JsonValue)>, key: String, v: JsonValue)
    requires
        keys_distinct(s),
    ensures
        json_object_model(string_insert(s, key, v)) == json_object_model(s).insert(key@, v.model()),
{
    lemma_key_position_from(s, key@, 0);
    match key_position(s, key@) {
        Some(p) => {
            lemma_object_update(s, p, v);
        },
        None => {
            let r = s.push((key, v));
            assert(r.subrange(0, s.len() as int) =~= s);
        },
    }
}

/// Where a list of values has JSON documents, each of its prefixes has them too.
pub proof fn lemma_json_of_items_prefix(items: Seq<ValueModel>, k: int)
    requires
        0 <= k <= items.len(),
        json_of_items(items) is Some,
    ensures
        json_of_items(items.subrange(0, k)) is Some,
    decreases items.len(),
{
    if k < items.len() {
        let shorter = items.subrange(0, items.len() - 1);
        lemma_json_of_items_prefix(shorter, k);
        assert(shorter.subrange(0, k) =~= items.subrange(0, k));
    } else {
        assert(items.subrange(0, k) =~= items);
    }
}

/// Where a list of entries has JSON object entries, each of its prefixes has them too.
pub proof fn lemma_json_of_entries_prefix(entries: Seq<(ValueModel, ValueModel)>, k: int)
    requires
        0 <= k <= entries.len(),
        json_of_entries(entries) is Some,
    ensures
        json_of_entries(entries.subrange(0, k)) is Some,
    decreases entries.len(),
{
    if k < entries.len() {
        let shorter = entries.subrange(0, entries.len() - 1);
        lemma_json_of_entries_prefix(shorter, k);
        assert(shorter.subrange(0, k) =~= entries.subrange(0, k));
    } else {
        assert(entries.subrange(0, k) =~= entries);
    }
}

/// Calls `serde_json::Number::from_i128` and reports whether it gave a number. Claimed, as
/// its documentation states for builds without the "arbitrary_precision" feature: it does
/// exactly when `i` lies between `i64::MIN` and `u64::MAX`.
#[verifier::external_body]
fn serde_accepts_i128(i: i128) -> (accepted: bool)
    ensures
        accepted == json_int_fits(i as int),
{
    serde_json::Number::from_i128(i).is_some()
}

fn number_ref_to_json(num: &crate::number::Number) -> (r: Option<JsonNumber>)
    ensures
        r matches Some(x) ==> json_of_number(num@) == Some(x@),
        r is None ==> json_of_number(num@) is None,
{
    match num {
        crate::number::Number::Int(i) => {
            if serde_accepts_i128(*i) {
                Some(JsonNumber::Int(*i))
            } else {
                None
            }
        },
        crate::number::Number::BigInt(b) => match b.to_i128() {
            Some(i) => {
                if serde_accepts_i128(i) {
                    Some(JsonNumber::Int(i))
                } else {
                    None
                }
            },
            None => None,
        },
        crate::number::Number::Float(bits) => {
            if (*bits >> 52u64) & 0x7ffu64 != 0x7ffu64 {
                Some(JsonNumber::Float(*bits))
            } else {
                None
            }
        },
        crate::number::Number::BigFloat(f) => Some(JsonNumber::BigFloat(*f)),
    }
}

fn simple_ref_to_json(simple: &SimpleValue) -> (r: Option<JsonValue>)
    ensures
        r matches Some(x) ==> json_of_simple(simple@) == Some(x@),
        r is None ==> json_of_simple(simple@) is None,
{
    match simple {
        SimpleValue::Bool(b) => Some(JsonValue::Bool(*b)),
        SimpleValue::Null => Some(JsonValue::Null),
        SimpleValue::Number(n) => match number_ref_to_json(n) {
            Some(j) => Some(JsonValue::Number(j)),
            None => None,
        },
        SimpleValue::String(s) => Some(JsonValue::String(s.clone())),
        _ => None,
    }
}

fn value_ref_to_json(val: &Value) -> (r: Option<JsonValue>)
    ensures
        r matches Some(x) ==> json_of(val@) == Some(x@),
        r is None ==> json_of(val@) is None,
    decreases val,
{
    match val {
        Value::Simple(s) => simple_ref_to_json(s),
        Value::Container(ContainerValue::Vec(items)) => {
            let ghost vm = values_model(items@);
            proof {
                lemma_values_model(items@);
                assert(vm.subrange(0, 0) =~= Seq::<ValueModel>::empty());
            }
            let mut out: Vec<JsonValue> = Vec::new();
            let mut i: usize = 0;
            while i < items.len()
                invariant
                    i <= items@.len(),
                    vm == values_model(items@),
                    *val == Value::Container(ContainerValue::Vec(*items)),
                    vm.len() == items@.len(),
                    forall|k: int| 0 <= k < items@.len() ==> #[trigger] vm[k] == items@[k]@,
                    json_of_items(vm.subrange(0, i as int)) == Some(json_values_model(out@)),
                decreases items@.len() - i,
            {
                let item = &items[i];
                let converted = value_ref_to_json(item);
                assert(vm.subrange(0, i + 1).subrange(0, i as int) =~= vm.subrange(0, i as int));
                match converted {
                    Some(j) => {
                        let ghost before = out@;
                        out.push(j);
                        assert(out@.subrange(0, out@.len() - 1) =~= before);
                    },
                    None => {
                        proof {
                            if json_of_items(vm) is Some {
                                lemma_json_of_items_prefix(vm, i + 1);
                            }
                        }
                        return None;
                    },
                }
                i += 1;
            }
            assert(vm.subrange(0, items@.len() as int) =~= vm);
            Some(JsonValue::Array(out))
        },
        Value::Container(ContainerValue::Object(m)) => {
            let ghost em = entries_model(m.map@);
            proof {
                lemma_entries_model(m.map@);
                assert(em.subrange(0, 0) =~= Seq::<(ValueModel, ValueModel)>::empty());
            }
            let mut out: MapType<String, JsonValue> = MapType::new();
            let mut i: usize = 0;
            assert(json_object_model(out.map@) =~= Map::<Seq<char>, JsonModel>::empty());
            while i < m.map.len()
                invariant
                    i <= m.map@.len(),
                    em == entries_model(m.map@),
                    *val == Value::Container(ContainerValue::Object(*m)),
                    em.len() == m.map@.len(),
                    forall|k: int|
                        0 <= k < m.map@.len() ==> #[trigger] em[k] == (m.map@[k].0@, m.map@[k].1@),
                    json_of_entries(em.subrange(0, i as int)) == Some(json_object_model(out.map@)),
                    keys_distinct(out.map@),
                decreases m.map@.len() - i,
            {
                let entry = &m.map[i];
                assert(em.subrange(0, i + 1).subrange(0, i as int) =~= em.subrange(0, i as int));
                let key = match &entry.0 {
                    Value::Simple(SimpleValue::String(k)) => k.clone(),
                    _ => {
                        proof {
                            if json_of_entries(em) is Some {
                                lemma_json_of_entries_prefix(em, i + 1);
                            }
                        }
                        return None;
                    },
                };
                let converted = value_ref_to_json(&entry.1);
                match converted {
                    Some(j) => {
                        proof {
                            lemma_object_insert(out.map@, key, j);
                            lemma_string_insert_distinct(out.map@, key, j);
                        }
                        out.insert(key, j);
                    },
                    None => {
                        proof {
                            if json_of_entries(em) is Some {
                                lemma_json_of_entries_prefix(em, i + 1);
                            }
                        }
                        return None;
                    },
                }
                i += 1;
            }
            assert(em.subrange(0, m.map@.len() as int) =~= em);
            Some(JsonValue::Object(out))
        },
    }
}

/// The JSON number of a number, if it has one: an integer has one when it lies between
/// `i64::MIN` and `u64::MAX`, a float when it is finite.
///
/// A big float always gets one here, carried as it is: whether its conversion to a 64-bit
/// float is finite, which decides whether JSON can hold it, is not decided by this function
/// but where that conversion is made, and a big float whose conversion is not finite gets no
/// JSON number there.
pub fn number_to_serde_json_number(num: crate::number::Number) -> (r: Option<JsonNumber>)
    ensures
        r matches Some(x) ==> json_of_number(num@) == Some(x@),
        r is None ==> json_of_number(num@) is None,
{
    number_ref_to_json(&num)
}

/// The JSON document of a simple value, if it has one.
pub fn simple_value_to_serde_json(simple: SimpleValue) -> (r: Option<JsonValue>)
    ensures
        r matches Some(x) ==> json_of_simple(simple@) == Some(x@),
        r is None ==> json_of_simple(simple@) is None,
{
    simple_ref_to_json(&simple)
}

/// The JSON document of a container, if it has one.
pub fn container_value_to_serde_json(container: ContainerValue) -> (r: Option<JsonValue>)
    ensures
        r matches Some(x) ==> json_of(Value::Container(container)@) == Some(x@),
        r is None ==> json_of(Value::Container(container)@) is None,
{
    let v = Value::Container(container);
    value_ref_to_json(&v)
}

/// The JSON object of a map, if each key is a string and each value has a JSON document.
pub fn to_serde_json_map(val: MapType<Value, Value>) -> (r: Option<JsonValue>)
    ensures
        r matches Some(x) ==> json_of(Value::Container(ContainerValue::Object(val))@) == Some(x@),
        r is None ==> json_of(Value::Container(ContainerValue::Object(val))@) is None,
{
    let v = Value::Container(ContainerValue::Object(val));
    value_ref_to_json(&v)
}

/// The JSON document of a value, if it has one.
pub fn value_to_serde_json(val: Value) -> (r: Option<JsonValue>)
    ensures
        r matches Some(x) ==> json_of(val@) == Some(x@),
        r is None ==> json_of(val@) is None,
{
    value_ref_to_json(&val)
}

impl Value {
    /// The JSON document of the value, if it has one.
    pub fn to_serde_json(self) -> (r: Option<JsonValue>)
        ensures
            r matches Some(x) ==> json_of(self@) == Some(x@),
            r is None ==> json_of(self@) is None,
    {
        value_to_serde_json(self)
    }

    /// The JSON document of the value, if it has one.
    pub fn to_serde_json_fallback(self) -> (r: Option<JsonValue>)
        ensures
            r matches Some(x) ==> json_of(self@) == Some(x@),
            r is None ==> json_of(self@) is None,
    {
        value_to_serde_json(self)
    }
}

} // verus!
