use vstd::prelude::*;

use crate::value::{ContainerValue, SimpleValue, Value};

verus! {

/// Whether `k` is the string value `key`.
pub open spec fn is_string_key(k: Value, key: Seq<char>) -> bool {
    k matches Value::Simple(SimpleValue::String(s)) && s@ == key
}

/// Position of the entry that a lookup by string key `key` reaches, starting at `from`.
///
/// Entries are tried in order; the first entry whose key is the string `key` is the hit, and
/// entries with other keys are passed over.
pub open spec fn str_position_from(entries: Seq<(Value, Value)>, key: Seq<char>, from: int) -> Option<int>
    decreases entries.len() - from,
{
    if from < 0 || from >= entries.len() {
        None
    } else {
        match entries[from].0 {
            Value::Simple(SimpleValue::String(s)) => if s@ == key {
                Some(from)
            } else {
                str_position_from(entries, key, from + 1)
            },
            _ => str_position_from(entries, key, from + 1),
        }
    }
}

/// Position of the entry that a lookup by string key `key` reaches in `entries`.
pub open spec fn str_position(entries: Seq<(Value, Value)>, key: Seq<char>) -> Option<int> {
    str_position_from(entries, key, 0)
}

/// A hit lies inside the entries, its key is the string looked up, and no earlier entry from
/// `from` on has that key; without a hit, no entry from `from` on has it.
pub proof fn lemma_str_position_from(entries: Seq<(Value, Value)>, key: Seq<char>, from: int)
    requires
        0 <= from,
    ensures
        str_position_from(entries, key, from) matches Some(p) ==> {
            &&& from <= p < entries.len()
            &&& is_string_key(entries[p].0, key)
            &&& forall|k: int| from <= k < p ==> !#[trigger] is_string_key(entries[k].0, key)
        },
        str_position_from(entries, key, from) is None ==> forall|k: int|
            from <= k < entries.len() ==> !#[trigger] is_string_key(entries[k].0, key),
    decreases entries.len() - from,
{
    if 0 <= from < entries.len() {
        lemma_str_position_from(entries, key, from + 1);
    }
}

/// Finds the position that a lookup by string key reaches.
fn find_str_key(entries: &Vec<(Value, Value)>, key: &str) -> (r: Option<usize>)
    ensures
        r matches Some(p) ==> str_position(entries@, key@) == Some(p as int),
        r is None ==> str_position(entries@, key@) is None,
{
    let origin = key.to_owned();
    let mut j: usize = 0;
    while j < entries.len()
        invariant
            j <= entries@.len(),
            origin@ == key@,
            str_position(entries@, key@) == str_position_from(entries@, key@, j as int),
        decreases entries@.len() - j,
    {
        match &entries[j].0 {
            Value::Simple(SimpleValue::String(s)) => {
                if origin == *s {
                    return Some(j);
                }
            },
            _ => {},
        }
        j += 1;
    }
    None
}

/// Something that selects a child of a [`Value`]: a position, or a string key.
pub trait IndexValue {
    /// The child that the index selects in `v`, if any.
    spec fn selects(&self, v: Value) -> Option<Value>;

    /// Whether `new` is `old` with the child that the index selects replaced by `child`.
    spec fn replaces(&self, old: Value, new: Value, child: Value) -> bool;

    /// The child that the index selects, if there is one.
    fn index_value<'a>(&self, v: &'a Value) -> (r: Option<&'a Value>)
        ensures
            r is Some <==> self.selects(*v) is Some,
            r matches Some(x) ==> self.selects(*v) == Some(*x),
    ;

    /// The child that the index selects, for change, if there is one.
    fn index_value_mut<'a>(&self, v: &'a mut Value) -> (r: Option<&'a mut Value>)
        ensures
            r is Some <==> self.selects(*old(v)) is Some,
            r matches Some(x) ==> self.selects(*old(v)) == Some(*x) && self.replaces(
                *old(v),
                *final(v),
                *final(x),
            ),
            r is None ==> *final(v) == *old(v),
    ;
}

impl IndexValue for usize {
    /// The item at this position of a list, or the value of the entry at this position of
    /// a map.
    open spec fn selects(&self, v: Value) -> Option<Value> {
        match v {
            Value::Container(ContainerValue::Vec(items)) => if *self < items@.len() {
                Some(items@[*self as int])
            } else {
                None
            },
            Value::Container(ContainerValue::Object(m)) => if *self < m.map@.len() {
                Some(m.map@[*self as int].1)
            } else {
                None
            },
            Value::Simple(_) => None,
        }
    }

    open spec fn replaces(&self, old: Value, new: Value, child: Value) -> bool {
        match (old, new) {
            (
                Value::Container(ContainerValue::Vec(o)),
                Value::Container(ContainerValue::Vec(n)),
            ) => *self < o@.len() && n@ == o@.update(*self as int, child),
            (
                Value::Container(ContainerValue::Object(o)),
                Value::Container(ContainerValue::Object(n)),
            ) => *self < o.map@.len() && n.map@ == o.map@.update(
                *self as int,
                (o.map@[*self as int].0, child),
            ),
            _ => false,
        }
    }

    fn index_value<'a>(&self, v: &'a Value) -> (r: Option<&'a Value>) {
        match v {
            Value::Container(ContainerValue::Vec(items)) => {
                if *self < items.len() {
                    Some(&items[*self])
                } else {
                    None
                }
            },
            Value::Container(ContainerValue::Object(m)) => m.get_index(*self),
            Value::Simple(_) => None,
        }
    }

    fn index_value_mut<'a>(&self, v: &'a mut Value) -> (r: Option<&'a mut Value>) {
        match v {
            Value::Container(ContainerValue::Vec(items)) => {
                if *self < items.len() {
                    Some(&mut items[*self])
                } else {
                    None
                }
            },
            Value::Container(ContainerValue::Object(m)) => m.get_index_mut(*self),
            Value::Simple(_) => None,
        }
    }
}

impl IndexValue for str {
    /// The value of the entry that a lookup by this string key reaches in a map.
    open spec fn selects(&self, v: Value) -> Option<Value> {
        match v {
            Value::Container(ContainerValue::Object(m)) => match str_position(m.map@, self@) {
                Some(p) => Some(m.map@[p].1),
                None => None,
            },
            _ => None,
        }
    }

    open spec fn replaces(&self, old: Value, new: Value, child: Value) -> bool {
        match (old, new) {
            (
                Value::Container(ContainerValue::Object(o)),
                Value::Container(ContainerValue::Object(n)),
            ) => match str_position(o.map@, self@) {
                Some(p) => n.map@ == o.map@.update(p, (o.map@[p].0, child)),
                None => false,
            },
            _ => false,
        }
    }

    fn index_value<'a>(&self, v: &'a Value) -> (r: Option<&'a Value>) {
        match v {
            Value::Container(ContainerValue::Object(m)) => {
                match find_str_key(&m.map, self) {
                    Some(p) => {
                        proof {
                            lemma_str_position_from(m.map@, self@, 0);
                        }
                        Some(&m.map[p].1)
                    },
                    None => None,
                }
            },
            _ => None,
        }
    }

    fn index_value_mut<'a>(&self, v: &'a mut Value) -> (r: Option<&'a mut Value>) {
        match v {
            Value::Container(ContainerValue::Object(m)) => {
                match find_str_key(&m.map, self) {
                    Some(p) => {
                        proof {
                            lemma_str_position_from(m.map@, self@, 0);
                        }
                        Some(&mut m.map[p].1)
                    },
                    None => None,
                }
            },
            _ => None,
        }
    }
}

impl Value {
    /// The child that `val` selects, if there is one.
    pub fn get<T: IndexValue + ?Sized>(&self, val: &T) -> (r: Option<&Value>)
        ensures
            r is Some <==> val.selects(*self) is Some,
            r matches Some(x) ==> val.selects(*self) == Some(*x),
    {
        val.index_value(self)
    }
}

} // verus!
