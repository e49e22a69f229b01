use vstd::prelude::*;

use crate::map::MapType;
use crate::number::{Number, NumberModel};
use crate::value::{
    entries_model, values_model, ContainerModel, ContainerValue, DateTime, SimpleModel,
    SimpleValue, Value, ValueModel,
};

verus! {

/// A TOML value, with the content that a value is made from.
///
/// A float is held by its IEEE-754 bit pattern; a table by its entries in their order.
#[derive(Debug, PartialEq)]
pub enum TomlValue {
    String(String),
    Integer(i64),
    Float(u64),
    Boolean(bool),
    Datetime(DateTime),
    Array(Vec<TomlValue>),
    Table(Vec<(String, TomlValue)>),
}

/// The content of the value made from a TOML value.
pub open spec fn toml_model(t: TomlValue) -> ValueModel
    decreases t,
{
    match t {
        TomlValue::String(s) => ValueModel::Simple(SimpleModel::String(s@)),
        TomlValue::Integer(i) => ValueModel::Simple(SimpleModel::Number(NumberModel::Int(i as int))),
        TomlValue::Float(b) => ValueModel::Simple(SimpleModel::Number(NumberModel::Float(b))),
        TomlValue::Boolean(b) => ValueModel::Simple(SimpleModel::Bool(b)),
        TomlValue::Datetime(d) => ValueModel::Simple(SimpleModel::DateTime(d)),
        TomlValue::Array(items) => ValueModel::Container(ContainerModel::Vec(toml_items_model(items@))),
        TomlValue::Table(entries) => ValueModel::Container(
            ContainerModel::Object(toml_entries_model(entries@)),
        ),
    }
}

/// The contents of the values made from a list of TOML values.
pub open spec fn toml_items_model(s: Seq<TomlValue>) -> Seq<ValueModel>
    decreases s,
{
    if s.len() == 0 {
        Seq::empty()
    } else {
        toml_items_model(s.subrange(0, s.len() - 1)).push(toml_model(s[s.len() - 1]))
    }
}

/// The map entries made from the entries of a TOML table: each key becomes a string value.
pub open spec fn toml_entries_model(s: Seq<(String, TomlValue)>) -> Seq<(ValueModel, ValueModel)>
    decreases s,
{
    if s.len() == 0 {
        Seq::empty()
    } else {
        toml_entries_model(s.subrange(0, s.len() - 1)).push(
            (
                ValueModel::Simple(SimpleModel::String(s[s.len() - 1].0@)),
                toml_model(s[s.len() - 1].1),
            ),
        )
    }
}

fn from_toml_ref(t: &TomlValue) -> (r: Value)
    ensures
        r@ == toml_model(*t),
    decreases t,
{
    match t {
        TomlValue::String(s) => Value::Simple(SimpleValue::String(s.clone())),
        TomlValue::Integer(i) => Value::Simple(SimpleValue::Number(Number::Int(*i as i128))),
        TomlValue::Float(b) => Value::Simple(SimpleValue::Number(Number::Float(*b))),
        TomlValue::Boolean(b) => Value::Simple(SimpleValue::Bool(*b)),
        TomlValue::Datetime(d) => Value::Simple(SimpleValue::DateTime(*d)),
        TomlValue::Array(items) => {
            let mut out: Vec<Value> = Vec::with_capacity(items.len());
            let mut i: usize = 0;
            assert(items@.subrange(0, 0) =~= Seq::<TomlValue>::empty());
            assert(out@ =~= Seq::<Value>::empty());
            while i < items.len()
                invariant
                    i <= items@.len(),
                    *t == TomlValue::Array(*items),
                    values_model(out@) == toml_items_model(items@.subrange(0, i as int)),
                decreases items@.len() - i,
            {
                let item = &items[i];
                assert(items@[i as int] == *item);
                assert(decreases_to!(*t => (*t)->Array_0));
                let v = from_toml_ref(item);
                let ghost before = out@;
                out.push(v);
                assert(out@.subrange(0, out@.len() - 1) =~= before);
                assert(items@.subrange(0, i + 1).subrange(0, i as int) =~= items@.subrange(
                    0,
                    i as int,
                ));
                i += 1;
            }
            assert(items@.subrange(0, items@.len() as int) =~= items@);
            Value::Container(ContainerValue::Vec(out))
        },
        TomlValue::Table(entries) => {
            let mut tree: MapType<Value, Value> = MapType::new();
            let mut i: usize = 0;
            assert(entries@.subrange(0, 0) =~= Seq::<(String, TomlValue)>::empty());
            assert(tree.map@ =~= Seq::<(Value, Value)>::empty());
            while i < entries.len()
                invariant
                    i <= entries@.len(),
                    *t == TomlValue::Table(*entries),
                    entries_model(tree.map@) == toml_entries_model(entries@.subrange(0, i as int)),
                decreases entries@.len() - i,
            {
                let entry = &entries[i];
                assert(entries@[i as int] == *entry);
                assert(decreases_to!(*t => (*t)->Table_0));
                let key = Value::Simple(SimpleValue::String(entry.0.clone()));
                let v = from_toml_ref(&entry.1);
                let ghost before = tree.map@;
                let ghost pair = (key, v);
                tree.map.push((key, v));
                assert(tree.map@.subrange(0, tree.map@.len() - 1) =~= before);
                assert(tree.map@[tree.map@.len() - 1] == pair);
                assert(entries_model(tree.map@) == entries_model(before).push((pair.0@, pair.1@)));
                assert(entries@.subrange(0, i + 1).subrange(0, i as int) =~= entries@.subrange(
                    0,
                    i as int,
                ));
                i += 1;
            }
            assert(entries@.subrange(0, entries@.len() as int) =~= entries@);
            Value::Container(ContainerValue::Object(tree))
        },
    }
}

impl Value {
    /// The value made from a TOML value: arrays become lists, tables become maps with string
    /// keys in the table's order, integers become integer numbers, floats float numbers.
    pub fn from_toml(value: TomlValue) -> (r: Value)
        ensures
            r@ == toml_model(value),
    {
        from_toml_ref(&value)
    }
}


impl From<TomlValue> for Value {
    /// The value made from a TOML value, as [`Value::from_toml`] makes it.
    fn from(value: TomlValue) -> (r: Value)
        ensures
            r@ == toml_model(value),
    {
        Value::from_toml(value)
    }
}

/// The value made from a TOML value holds vectors, which no spec function can build, so the
/// conversion is not given as a spec function: `obeys_from_spec` is `false`, and `from`'s own
/// `ensures` fixes the content of its result.
impl vstd::std_specs::convert::FromSpecImpl<TomlValue> for Value {
    open spec fn obeys_from_spec() -> bool {
        false
    }

    open spec fn from_spec(v: TomlValue) -> Value {
        vstd::pervasive::arbitrary()
    }
}

} // verus!
