use vstd::prelude::*;

use crate::map::{string_insert_all, MapType};
use crate::number::{Number, NumberModel};

verus! {

/// A calendar date.
#[derive(Clone, Copy, Debug, PartialEq, Eq, Structural)]
pub struct Date {
    pub year: u16,
    pub month: u8,
    pub day: u8,
}

/// A time of day.
#[derive(Clone, Copy, Debug, PartialEq, Eq, Structural)]
pub struct Time {
    pub hour: u8,
    pub minute: u8,
    pub second: u8,
    pub nanosecond: u32,
}

/// A time zone offset: UTC itself, or a number of minutes away from it.
#[derive(Clone, Copy, Debug, PartialEq, Eq, Structural)]
pub enum Offset {
    Z,
    Custom { minutes: i16 },
}

/// A date, a time, or both, with an optional offset.
#[derive(Clone, Copy, Debug, PartialEq, Eq, Structural)]
pub struct DateTime {
    pub date: Option<Date>,
    pub time: Option<Time>,
    pub offset: Option<Offset>,
}

/// A color with red, green, blue and alpha channels.
#[derive(Clone, Copy, Debug, PartialEq, Eq, Structural)]
pub struct Color {
    pub r: u8,
    pub g: u8,
    pub b: u8,
    pub a: u8,
}

/// A value without children.
///
/// The magnitudes of angles and lengths are 64-bit floats held by their IEEE-754 bit
/// pattern, and the `String` beside them names the unit; the `String` beside bytes names
/// their encoding.
#[derive(Debug, PartialEq)]
pub enum SimpleValue {
    Null,
    Bool(bool),
    Number(Number),
    String(String),
    Time(Time),
    DateTime(DateTime),
    Angle(u64, String),
    Literal(String),
    Length(u64, String),
    Color(Color),
    Bytes(Vec<u8>, String),
}

/// A value with children: a list, or a map whose keys are values too.
#[derive(Debug, PartialEq)]
pub enum ContainerValue {
    Vec(Vec<Value>),
    Object(MapType<Value, Value>),
}

/// A full value: either a [`SimpleValue`] or a [`ContainerValue`].
#[derive(Debug, PartialEq)]
pub enum Value {
    Simple(SimpleValue),
    Container(ContainerValue),
}

/// The name of the default inner type of a value: the plain [`Value`], whose children are
/// values again. It is the only kind of value that this library has, so nothing takes this
/// marker as a parameter.
#[derive(Debug, Clone, Copy, Hash, PartialEq, Eq, Default, PartialOrd, Ord)]
pub struct DefaultInnerValueSelf {}

/// The kind of a value.
#[derive(Debug, Clone, Copy, PartialEq, Eq, Structural)]
pub enum ValueType {
    Null,
    Bool,
    Number,
    String,
    Time,
    DateTime,
    Angle,
    Literal,
    Length,
    Color,
    Bytes,
    Vec,
    Object,
}

/// The content of a [`SimpleValue`].
pub enum SimpleModel {
    Null,
    Bool(bool),
    Number(NumberModel),
    String(Seq<char>),
    Time(Time),
    DateTime(DateTime),
    Angle(u64, Seq<char>),
    Literal(Seq<char>),
    Length(u64, Seq<char>),
    Color(Color),
    Bytes(Seq<u8>, Seq<char>),
}

/// The content of a [`ContainerValue`]: the list of its items, or the entries of its map
/// in their order.
pub enum ContainerModel {
    Vec(Seq<ValueModel>),
    Object(Seq<(ValueModel, ValueModel)>),
}

/// The content of a [`Value`].
pub enum ValueModel {
    Simple(SimpleModel),
    Container(ContainerModel),
}

impl View for SimpleValue {
    type V = SimpleModel;

    open spec fn view(&self) -> SimpleModel {
        match self {
            SimpleValue::Null => SimpleModel::Null,
            SimpleValue::Bool(b) => SimpleModel::Bool(*b),
            SimpleValue::Number(n) => SimpleModel::Number(n@),
            SimpleValue::String(s) => SimpleModel::String(s@),
            SimpleValue::Time(t) => SimpleModel::Time(*t),
            SimpleValue::DateTime(d) => SimpleModel::DateTime(*d),
            SimpleValue::Angle(m, u) => SimpleModel::Angle(*m, u@),
            SimpleValue::Literal(s) => SimpleModel::Literal(s@),
            SimpleValue::Length(m, u) => SimpleModel::Length(*m, u@),
            SimpleValue::Color(c) => SimpleModel::Color(*c),
            SimpleValue::Bytes(b, e) => SimpleModel::Bytes(b@, e@),
        }
    }
}

/// The contents of a list of values.
pub open spec fn values_model(s: Seq<Value>) -> Seq<ValueModel>
    decreases s,
{
    if s.len() == 0 {
        Seq::empty()
    } else {
        values_model(s.subrange(0, s.len() - 1)).push(s[s.len() - 1].model())
    }
}

/// The contents of a list of entries.
pub open spec fn entries_model(s: Seq<(Value, Value)>) -> Seq<(ValueModel, ValueModel)>
    decreases s,
{
    if s.len() == 0 {
        Seq::empty()
    } else {
        entries_model(s.subrange(0, s.len() - 1)).push(
            (s[s.len() - 1].0.model(), s[s.len() - 1].1.model()),
        )
    }
}

impl Value {
    /// The content of the value.
    pub open spec fn model(self) -> ValueModel
        decreases self,
    {
        match self {
            Value::Simple(s) => ValueModel::Simple(s@),
            Value::Container(ContainerValue::Vec(v)) => ValueModel::Container(
                ContainerModel::Vec(values_model(v@)),
            ),
            Value::Container(ContainerValue::Object(m)) => ValueModel::Container(
                ContainerModel::Object(entries_model(m.map@)),
            ),
        }
    }
}

impl View for Value {
    type V = ValueModel;

    open spec fn view(&self) -> ValueModel {
        self.model()
    }
}


/// The model of a list has one item for each value, in the same order.
pub proof fn lemma_values_model(s: Seq<Value>)
    ensures
        values_model(s).len() == s.len(),
        forall|i: int| 0 <= i < s.len() ==> #[trigger] values_model(s)[i] == s[i]@,
    decreases s.len(),
{
    if s.len() > 0 {
        lemma_values_model(s.subrange(0, s.len() - 1));
    }
}

/// The model of a list of entries has one entry for each entry, in the same order.
pub proof fn lemma_entries_model(s: Seq<(Value, Value)>)
    ensures
        entries_model(s).len() == s.len(),
        forall|i: int|
            0 <= i < s.len() ==> #[trigger] entries_model(s)[i] == (s[i].0@, s[i].1@),
    decreases s.len(),
{
    if s.len() > 0 {
        lemma_entries_model(s.subrange(0, s.len() - 1));
    }
}

impl SimpleModel {
    /// The kind of a simple value.
    pub open spec fn value_type(self) -> ValueType {
        match self {
            SimpleModel::Null => ValueType::Null,
            SimpleModel::Bool(_) => ValueType::Bool,
            SimpleModel::Number(_) => ValueType::Number,
            SimpleModel::String(_) => ValueType::String,
            SimpleModel::Time(_) => ValueType::Time,
            SimpleModel::DateTime(_) => ValueType::DateTime,
            SimpleModel::Angle(_, _) => ValueType::Angle,
            SimpleModel::Literal(_) => ValueType::Literal,
            SimpleModel::Length(_, _) => ValueType::Length,
            SimpleModel::Color(_) => ValueType::Color,
            SimpleModel::Bytes(_, _) => ValueType::Bytes,
        }
    }
}

impl ValueModel {
    /// The kind of a value.
    pub open spec fn value_type(self) -> ValueType {
        match self {
            ValueModel::Simple(s) => s.value_type(),
            ValueModel::Container(ContainerModel::Vec(_)) => ValueType::Vec,
            ValueModel::Container(ContainerModel::Object(_)) => ValueType::Object,
        }
    }
}

impl Value {
    /// The values that [`Value::to_list`] lists: the value itself if it is simple, the items
    /// of a list, the keys of a map.
    pub open spec fn list_items(self) -> Seq<Value> {
        match self {
            Value::Simple(_) => seq![self],
            Value::Container(ContainerValue::Vec(v)) => v@,
            Value::Container(ContainerValue::Object(m)) => m.map@.map_values(|e: (Value, Value)| e.0),
        }
    }

    /// The kind of the value.
    pub fn get_value_type(&self) -> (r: ValueType)
        ensures
            r == self@.value_type(),
    {
        match self {
            Value::Simple(s) => match s {
                SimpleValue::Null => ValueType::Null,
                SimpleValue::Bool(_) => ValueType::Bool,
                SimpleValue::Number(_) => ValueType::Number,
                SimpleValue::String(_) => ValueType::String,
                SimpleValue::Time(_) => ValueType::Time,
                SimpleValue::DateTime(_) => ValueType::DateTime,
                SimpleValue::Angle(_, _) => ValueType::Angle,
                SimpleValue::Literal(_) => ValueType::Literal,
                SimpleValue::Length(_, _) => ValueType::Length,
                SimpleValue::Color(_) => ValueType::Color,
                SimpleValue::Bytes(_, _) => ValueType::Bytes,
            },
            Value::Container(ContainerValue::Vec(_)) => ValueType::Vec,
            Value::Container(ContainerValue::Object(_)) => ValueType::Object,
        }
    }

    /// Whether the value is of the given kind.
    pub fn is_type(&self, value_type: ValueType) -> (r: bool)
        ensures
            r == (self@.value_type() == value_type),
    {
        value_type == self.get_value_type()
    }

    /// Whether the value is a map.
    pub fn is_map(&self) -> (r: bool)
        ensures
            r == (self@.value_type() == ValueType::Object),
    {
        self.is_type(ValueType::Object)
    }

    /// Whether the value is a string.
    pub fn is_string(&self) -> (r: bool)
        ensures
            r == (self@.value_type() == ValueType::String),
    {
        self.is_type(ValueType::String)
    }

    /// Whether the value is a list.
    pub fn is_vec(&self) -> (r: bool)
        ensures
            r == (self@.value_type() == ValueType::Vec),
    {
        self.is_type(ValueType::Vec)
    }

    /// Whether the value is a number.
    pub fn is_number(&self) -> (r: bool)
        ensures
            r == (self@.value_type() == ValueType::Number),
    {
        self.is_type(ValueType::Number)
    }

    /// Whether the value is the empty value.
    pub fn is_none(&self) -> (r: bool)
        ensures
            r == (self@.value_type() == ValueType::Null),
    {
        self.is_type(ValueType::Null)
    }

    /// Whether the value is a boolean.
    pub fn is_bool(&self) -> (r: bool)
        ensures
            r == (self@.value_type() == ValueType::Bool),
    {
        self.is_type(ValueType::Bool)
    }
}


impl From<SimpleValue> for Value {
    fn from(value: SimpleValue) -> (r: Value) {
        Value::Simple(value)
    }
}

impl vstd::std_specs::convert::FromSpecImpl<SimpleValue> for Value {
    open spec fn obeys_from_spec() -> bool {
        true
    }

    open spec fn from_spec(v: SimpleValue) -> Value {
        Value::Simple(v)
    }
}

impl From<ContainerValue> for Value {
    fn from(value: ContainerValue) -> (r: Value) {
        Value::Container(value)
    }
}

impl vstd::std_specs::convert::FromSpecImpl<ContainerValue> for Value {
    open spec fn obeys_from_spec() -> bool {
        true
    }

    open spec fn from_spec(v: ContainerValue) -> Value {
        Value::Container(v)
    }
}

impl Value {
    /// A string value holding `value`.
    pub fn from_string(value: String) -> (r: Value)
        ensures
            r == Value::Simple(SimpleValue::String(value)),
    {
        Value::Simple(SimpleValue::String(value))
    }

    /// An empty string value.
    pub fn new_string() -> (r: Value)
        ensures
            r@ == ValueModel::Simple(SimpleModel::String(Seq::empty())),
    {
        Value::Simple(SimpleValue::String(String::new()))
    }

    /// A list value holding `value`.
    pub fn from_vec(value: Vec<Value>) -> (r: Value)
        ensures
            r == Value::Container(ContainerValue::Vec(value)),
    {
        Value::Container(ContainerValue::Vec(value))
    }

    /// An empty list value.
    pub fn new_vec() -> (r: Value)
        ensures
            r@ == ValueModel::Container(ContainerModel::Vec(Seq::empty())),
    {
        Value::Container(ContainerValue::Vec(Vec::new()))
    }

    /// A map value holding `map`.
    pub fn from_map(map: MapType<Value, Value>) -> (r: Value)
        ensures
            r == Value::Container(ContainerValue::Object(map)),
    {
        Value::Container(ContainerValue::Object(map))
    }

    /// An empty map value.
    pub fn new_map() -> (r: Value)
        ensures
            r@ == ValueModel::Container(ContainerModel::Object(Seq::empty())),
    {
        Value::Container(ContainerValue::Object(MapType::new()))
    }

    /// The empty value.
    pub fn new_none() -> (r: Value)
        ensures
            r == Value::Simple(SimpleValue::Null),
    {
        Value::Simple(SimpleValue::Null)
    }

    /// A number value holding `number`.
    pub fn from_number(number: Number) -> (r: Value)
        ensures
            r == Value::Simple(SimpleValue::Number(number)),
    {
        Value::Simple(SimpleValue::Number(number))
    }

    /// The number value zero.
    pub fn new_number() -> (r: Value)
        ensures
            r@ == ValueModel::Simple(SimpleModel::Number(NumberModel::Int(0))),
    {
        Value::Simple(SimpleValue::Number(Number::default()))
    }

    /// A number value holding `number`.
    pub fn from_number_legacy(number: Number) -> (r: Value)
        ensures
            r == Value::Simple(SimpleValue::Number(number)),
    {
        Value::Simple(SimpleValue::Number(number))
    }

    /// A boolean value holding `b`.
    pub fn from_bool(b: bool) -> (r: Value)
        ensures
            r == Value::Simple(SimpleValue::Bool(b)),
    {
        Value::Simple(SimpleValue::Bool(b))
    }

    /// The boolean value `false`.
    pub fn new_bool() -> (r: Value)
        ensures
            r == Value::Simple(SimpleValue::Bool(false)),
    {
        Value::Simple(SimpleValue::Bool(false))
    }
}

impl Value {
    /// The simple value inside, if the value is simple.
    pub fn as_simple(&self) -> (r: Option<&SimpleValue>)
        ensures
            r is Some <==> self is Simple,
            r matches Some(x) ==> *self == Value::Simple(*x),
    {
        match self {
            Value::Simple(s) => Some(s),
            Value::Container(_) => None,
        }
    }

    /// The container inside, if the value is a container.
    pub fn as_container(&self) -> (r: Option<&ContainerValue>)
        ensures
            r is Some <==> self is Container,
            r matches Some(x) ==> *self == Value::Container(*x),
    {
        match self {
            Value::Container(c) => Some(c),
            Value::Simple(_) => None,
        }
    }

    /// The simple value inside, if the value is simple.
    pub fn into_simple(self) -> (r: Option<SimpleValue>)
        ensures
            r is Some <==> self is Simple,
            r matches Some(x) ==> self == Value::Simple(x),
    {
        match self {
            Value::Simple(s) => Some(s),
            Value::Container(_) => None,
        }
    }

    /// The container inside, if the value is a container.
    pub fn into_container(self) -> (r: Option<ContainerValue>)
        ensures
            r is Some <==> self is Container,
            r matches Some(x) ==> self == Value::Container(x),
    {
        match self {
            Value::Container(c) => Some(c),
            Value::Simple(_) => None,
        }
    }

    /// The string inside, if the value is a string.
    pub fn as_string_ref(&self) -> (r: Option<&String>)
        ensures
            r is Some <==> (self is Simple && self->Simple_0 is String),
            r matches Some(x) ==> *self == Value::Simple(SimpleValue::String(*x)),
    {
        match self {
            Value::Simple(SimpleValue::String(s)) => Some(s),
            _ => None,
        }
    }

    /// The items, if the value is a list.
    pub fn as_vec_ref(&self) -> (r: Option<&Vec<Value>>)
        ensures
            r is Some <==> (self is Container && self->Container_0 is Vec),
            r matches Some(x) ==> *self == Value::Container(ContainerValue::Vec(*x)),
    {
        match self {
            Value::Container(ContainerValue::Vec(v)) => Some(v),
            _ => None,
        }
    }

    /// The map, if the value is a map.
    pub fn as_map_ref(&self) -> (r: Option<&MapType<Value, Value>>)
        ensures
            r is Some <==> (self is Container && self->Container_0 is Object),
            r matches Some(x) ==> *self == Value::Container(ContainerValue::Object(*x)),
    {
        match self {
            Value::Container(ContainerValue::Object(m)) => Some(m),
            _ => None,
        }
    }

    /// The items, if the value is a list (kept under its older name).
    pub fn as_array(&self) -> (r: Option<&Vec<Value>>)
        ensures
            r is Some <==> (self is Container && self->Container_0 is Vec),
            r matches Some(x) ==> *self == Value::Container(ContainerValue::Vec(*x)),
    {
        self.as_vec_ref()
    }

    /// The string inside, if the value is a string (kept under its older name).
    pub fn as_str(&self) -> (r: Option<&String>)
        ensures
            r is Some <==> (self is Simple && self->Simple_0 is String),
            r matches Some(x) ==> *self == Value::Simple(SimpleValue::String(*x)),
    {
        self.as_string_ref()
    }

    /// The map, if the value is a map (kept under its older name).
    pub fn as_object(&self) -> (r: Option<&MapType<Value, Value>>)
        ensures
            r is Some <==> (self is Container && self->Container_0 is Object),
            r matches Some(x) ==> *self == Value::Container(ContainerValue::Object(*x)),
    {
        self.as_map_ref()
    }

    /// The string inside, if the value is a string.
    pub fn into_string(self) -> (r: Option<String>)
        ensures
            r is Some <==> (self is Simple && self->Simple_0 is String),
            r matches Some(x) ==> self == Value::Simple(SimpleValue::String(x)),
    {
        match self {
            Value::Simple(SimpleValue::String(s)) => Some(s),
            _ => None,
        }
    }

    /// The boolean inside, if the value is a boolean.
    pub fn into_bool(self) -> (r: Option<bool>)
        ensures
            r is Some <==> (self is Simple && self->Simple_0 is Bool),
            r matches Some(x) ==> self == Value::Simple(SimpleValue::Bool(x)),
    {
        match self {
            Value::Simple(SimpleValue::Bool(b)) => Some(b),
            _ => None,
        }
    }

    /// The items, if the value is a list.
    pub fn into_vec(self) -> (r: Option<Vec<Value>>)
        ensures
            r is Some <==> (self is Container && self->Container_0 is Vec),
            r matches Some(x) ==> self == Value::Container(ContainerValue::Vec(x)),
    {
        match self {
            Value::Container(ContainerValue::Vec(v)) => Some(v),
            _ => None,
        }
    }

    /// The map, if the value is a map.
    pub fn into_map(self) -> (r: Option<MapType<Value, Value>>)
        ensures
            r is Some <==> (self is Container && self->Container_0 is Object),
            r matches Some(x) ==> self == Value::Container(ContainerValue::Object(x)),
    {
        match self {
            Value::Container(ContainerValue::Object(m)) => Some(m),
            _ => None,
        }
    }
}


impl Value {
    /// The simple value inside, for change, if the value is simple.
    pub fn as_simple_mut(&mut self) -> (r: Option<&mut SimpleValue>)
        ensures
            r is Some <==> *old(self) is Simple,
            r matches Some(x) ==> *old(self) == Value::Simple(*x) && *final(self) == Value::Simple(
                *final(x),
            ),
            r is None ==> *final(self) == *old(self),
    {
        match self {
            Value::Simple(s) => Some(s),
            Value::Container(_) => None,
        }
    }

    /// The container inside, for change, if the value is a container.
    pub fn as_container_mut(&mut self) -> (r: Option<&mut ContainerValue>)
        ensures
            r is Some <==> *old(self) is Container,
            r matches Some(x) ==> *old(self) == Value::Container(*x) && *final(self)
                == Value::Container(*final(x)),
            r is None ==> *final(self) == *old(self),
    {
        match self {
            Value::Container(c) => Some(c),
            Value::Simple(_) => None,
        }
    }
}


impl Value {
    /// The value as a list: itself if it is simple, the items of a list, the keys of a map.
    pub fn to_list(&self) -> (r: Vec<&Value>)
        ensures
            r@.len() == self.list_items().len(),
            forall|i: int| 0 <= i < r@.len() ==> *r@[i] == self.list_items()[i],
    {
        match self {
            Value::Simple(_) => vec![self],
            Value::Container(ContainerValue::Vec(v)) => {
                let mut out: Vec<&Value> = Vec::new();
                let mut i: usize = 0;
                while i < v.len()
                    invariant
                        i <= v@.len(),
                        out@.len() == i,
                        forall|j: int| 0 <= j < i ==> *out@[j] == v@[j],
                    decreases v@.len() - i,
                {
                    out.push(&v[i]);
                    i += 1;
                }
                out
            },
            Value::Container(ContainerValue::Object(m)) => {
                let mut out: Vec<&Value> = Vec::new();
                let mut i: usize = 0;
                while i < m.map.len()
                    invariant
                        i <= m.map@.len(),
                        out@.len() == i,
                        forall|j: int| 0 <= j < i ==> *out@[j] == m.map@[j].0,
                    decreases m.map@.len() - i,
                {
                    out.push(&m.map[i].0);
                    i += 1;
                }
                out
            },
        }
    }

    /// The value as a list, as [`Value::to_list`] gives it, where every value listed is of
    /// the given kind; `None` where one is not.
    pub fn to_list_of_type(&self, value_type: ValueType) -> (r: Option<Vec<&Value>>)
        ensures
            r is Some <==> forall|i: int|
                0 <= i < self.list_items().len() ==> #[trigger] self.list_items()[i]@.value_type()
                    == value_type,
            r matches Some(l) ==> l@.len() == self.list_items().len() && forall|i: int|
                0 <= i < l@.len() ==> *l@[i] == self.list_items()[i],
    {
        let list = self.to_list();
        let mut i: usize = 0;
        while i < list.len()
            invariant
                i <= list@.len(),
                list@.len() == self.list_items().len(),
                forall|j: int| 0 <= j < list@.len() ==> *list@[j] == self.list_items()[j],
                forall|j: int| 0 <= j < i ==> #[trigger] self.list_items()[j]@.value_type() == value_type,
            decreases list@.len() - i,
        {
            if !list[i].is_type(value_type) {
                return None;
            }
            i += 1;
        }
        Some(list)
    }
}


/// The values of a list of entries, in order.
pub open spec fn entry_values(entries: Seq<(Value, Value)>) -> Seq<Value> {
    entries.map_values(|e: (Value, Value)| e.1)
}

/// Whether `keys` are strings that `key_text` may give for the keys of `entries`, one for
/// each entry.
pub open spec fn key_texts<F: Fn(&Value) -> String>(
    key_text: F,
    entries: Seq<(Value, Value)>,
    keys: Seq<String>,
) -> bool {
    &&& keys.len() == entries.len()
    &&& forall|i: int|
        0 <= i < keys.len() ==> key_text.ensures((&entries[i].0,), #[trigger] keys[i])
}

impl Value {
    /// The map as one with string keys, each key turned into a string by `key_text`; `None`
    /// where the value is not a map. Entries are inserted in order, so a later entry whose
    /// key reads the same replaces the value of an earlier one.
    pub fn to_map_with_only_string_key<F: Fn(&Value) -> String>(self, key_text: F) -> (r: Option<
        MapType<String, Value>,
    >)
        requires
            forall|v: &Value| #[trigger] key_text.requires((v,)),
        ensures
            r is Some <==> (self is Container && self->Container_0 is Object),
            r matches Some(m) ==> exists|keys: Seq<String>|
                #[trigger] key_texts(key_text, self->Container_0->Object_0.map@, keys) && m.map@
                    == string_insert_all(
                    keys,
                    entry_values(self->Container_0->Object_0.map@),
                ),
    {
        let ghost whole = self;
        match self.into_map() {
            Some(map) => {
                let ghost entries = map.map@;
                let ghost values = entry_values(entries);
                let ghost mut keys: Seq<String> = Seq::empty();
                let mut new: MapType<String, Value> = MapType::new();
                for entry in it: map.map.into_iter()
                    invariant
                        forall|v: &Value| #[trigger] key_text.requires((v,)),
                        it.seq() == entries,
                        values == entry_values(entries),
                        keys.len() == it.index(),
                        forall|i: int|
                            0 <= i < keys.len() ==> key_text.ensures(
                                (&entries[i].0,),
                                #[trigger] keys[i],
                            ),
                        new.map@ == string_insert_all(keys, values.subrange(0, keys.len() as int)),
                {
                    let ghost idx = it.index();
                    let ghost elem = entry;
                    assert(elem == entries[idx as int]);
                    let (value, item) = entry;
                    let key = key_text(&value);
                    let ghost old_keys = keys;
                    let ghost old_new = new.map@;
                    proof {
                        keys = keys.push(key);
                        assert(keys.subrange(0, keys.len() - 1) =~= old_keys);
                        assert(values.subrange(0, keys.len() as int).subrange(0, keys.len() - 1)
                            =~= values.subrange(0, old_keys.len() as int));
                        assert(values[idx as int] == item);
                    }
                    new.insert(key, item);
                }
                assert(values.subrange(0, keys.len() as int) =~= values);
                assert(keys.len() == entries.len());
                assert(key_texts(key_text, entries, keys));
                assert(whole->Container_0->Object_0.map@ == entries);
                assert(new.map@ == string_insert_all(keys, entry_values(entries)));
                Some(new)
            },
            None => None,
        }
    }
}


impl Clone for SimpleValue {
    /// A simple value with the same content.
    fn clone(&self) -> (r: SimpleValue)
        ensures
            r@ == self@,
    {
        match self {
            SimpleValue::Null => SimpleValue::Null,
            SimpleValue::Bool(b) => SimpleValue::Bool(*b),
            SimpleValue::Number(n) => SimpleValue::Number(n.clone()),
            SimpleValue::String(s) => SimpleValue::String(s.clone()),
            SimpleValue::Time(t) => SimpleValue::Time(*t),
            SimpleValue::DateTime(d) => SimpleValue::DateTime(*d),
            SimpleValue::Angle(m, u) => SimpleValue::Angle(*m, u.clone()),
            SimpleValue::Literal(s) => SimpleValue::Literal(s.clone()),
            SimpleValue::Length(m, u) => SimpleValue::Length(*m, u.clone()),
            SimpleValue::Color(c) => SimpleValue::Color(*c),
            SimpleValue::Bytes(b, e) => {
                let bytes = b.clone();
                assert(bytes@ =~= b@);
                SimpleValue::Bytes(bytes, e.clone())
            },
        }
    }
}

impl ContainerValue {
    /// The content of the container.
    pub open spec fn model(self) -> ContainerModel {
        match self {
            ContainerValue::Vec(v) => ContainerModel::Vec(values_model(v@)),
            ContainerValue::Object(m) => ContainerModel::Object(entries_model(m.map@)),
        }
    }
}

fn copy_value(v: &Value) -> (r: Value)
    ensures
        r@ == v@,
    decreases v,
{
    match v {
        Value::Simple(s) => Value::Simple(s.clone()),
        Value::Container(c) => Value::Container(copy_container(c)),
    }
}

fn copy_container(c: &ContainerValue) -> (r: ContainerValue)
    ensures
        r.model() == c.model(),
    decreases c,
{
    match c {
        ContainerValue::Vec(items) => {
            let mut out: Vec<Value> = Vec::with_capacity(items.len());
            let mut i: usize = 0;
            assert(out@ =~= Seq::<Value>::empty());
            proof {
                lemma_values_model(items@);
            }
            while i < items.len()
                invariant
                    i <= items@.len(),
                    *c == ContainerValue::Vec(*items),
                    values_model(out@) =~= values_model(items@).subrange(0, i as int),
                    values_model(items@).len() == items@.len(),
                    forall|k: int|
                        0 <= k < items@.len() ==> #[trigger] values_model(items@)[k] == items@[k]@,
                decreases items@.len() - i,
            {
                let item = &items[i];
                assert(decreases_to!(*c => (*c)->Vec_0));
                let copied = copy_value(item);
                let ghost before = out@;
                out.push(copied);
                assert(out@.subrange(0, out@.len() - 1) =~= before);
                i += 1;
            }
            assert(values_model(items@).subrange(0, items@.len() as int) =~= values_model(items@));
            ContainerValue::Vec(out)
        },
        ContainerValue::Object(m) => {
            assert(decreases_to!(*c => (*c)->Object_0));
            ContainerValue::Object(copy_map(m))
        },
    }
}

fn copy_map(m: &MapType<Value, Value>) -> (r: MapType<Value, Value>)
    ensures
        entries_model(r.map@) == entries_model(m.map@),
    decreases m,
{
    let mut out: Vec<(Value, Value)> = Vec::with_capacity(m.map.len());
    let mut i: usize = 0;
    assert(out@ =~= Seq::<(Value, Value)>::empty());
    proof {
        lemma_entries_model(m.map@);
    }
    while i < m.map.len()
        invariant
            i <= m.map@.len(),
            entries_model(out@) =~= entries_model(m.map@).subrange(0, i as int),
            entries_model(m.map@).len() == m.map@.len(),
            forall|k: int|
                0 <= k < m.map@.len() ==> #[trigger] entries_model(m.map@)[k] == (
                    m.map@[k].0@,
                    m.map@[k].1@,
                ),
        decreases m.map@.len() - i,
    {
        let entry = &m.map[i];
        assert(decreases_to!(*m => m.map));
        let key = copy_value(&entry.0);
        let val = copy_value(&entry.1);
        let ghost before = out@;
        let ghost pair = (key, val);
        out.push((key, val));
        assert(out@.subrange(0, out@.len() - 1) =~= before);
        assert(out@[out@.len() - 1] == pair);
        i += 1;
    }
    assert(entries_model(m.map@).subrange(0, m.map@.len() as int) =~= entries_model(m.map@));
    MapType { map: out }
}

impl Clone for ContainerValue {
    /// A container with the same content, copied all the way down.
    fn clone(&self) -> (r: ContainerValue)
        ensures
            r.model() == self.model(),
    {
        copy_container(self)
    }
}

impl Clone for MapType<Value, Value> {
    /// A map with the same entries, copied all the way down.
    fn clone(&self) -> (r: MapType<Value, Value>)
        ensures
            entries_model(r.map@) == entries_model(self.map@),
    {
        copy_map(self)
    }
}

impl Clone for Value {
    /// A value with the same content, copied all the way down.
    fn clone(&self) -> (r: Value)
        ensures
            r@ == self@,
    {
        copy_value(self)
    }
}

} // verus!
