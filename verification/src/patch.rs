use vstd::prelude::*;

use crate::value::{ContainerValue, SimpleValue, Value};

verus! {

/// A type that some values convert to.
pub trait TryFromPatch: Sized {
    /// Whether `value` converts to a value of this type.
    spec fn converts(value: Value) -> bool;

    /// Whether `value` converts to `out`.
    spec fn converts_to(value: Value, out: Self) -> bool;

    /// The converted value, where `value` converts.
    fn try_from_value(value: Value) -> (r: Option<Self>)
        ensures
            r is Some <==> Self::converts(value),
            r matches Some(x) ==> Self::converts_to(value, x),
    ;
}

impl TryFromPatch for String {
    /// A string value converts to its string.
    open spec fn converts(value: Value) -> bool {
        value matches Value::Simple(SimpleValue::String(_))
    }

    open spec fn converts_to(value: Value, out: String) -> bool {
        value == Value::Simple(SimpleValue::String(out))
    }

    fn try_from_value(value: Value) -> (r: Option<String>) {
        value.into_string()
    }
}

impl TryFromPatch for bool {
    /// A boolean value converts to its boolean.
    open spec fn converts(value: Value) -> bool {
        value matches Value::Simple(SimpleValue::Bool(_))
    }

    open spec fn converts_to(value: Value, out: bool) -> bool {
        value == Value::Simple(SimpleValue::Bool(out))
    }

    fn try_from_value(value: Value) -> (r: Option<bool>) {
        value.into_bool()
    }
}

impl<T: TryFromPatch> TryFromPatch for Vec<T> {
    /// A list converts where each of its items converts, item by item.
    open spec fn converts(value: Value) -> bool {
        &&& value matches Value::Container(ContainerValue::Vec(items))
        &&& forall|i: int| 0 <= i < items@.len() ==> T::converts(#[trigger] items@[i])
    }

    open spec fn converts_to(value: Value, out: Vec<T>) -> bool {
        &&& value matches Value::Container(ContainerValue::Vec(items))
        &&& out@.len() == items@.len()
        &&& forall|i: int| 0 <= i < items@.len() ==> T::converts_to(#[trigger] items@[i], out@[i])
    }

    fn try_from_value(value: Value) -> (r: Option<Vec<T>>) {
        let ghost v = value;
        match value.into_vec() {
            Some(list) => {
                let ghost items = list@;
                let mut output: Vec<T> = Vec::with_capacity(list.len());
                for item in it: list.into_iter()
                    invariant
                        v == value,
                        v == Value::Container(ContainerValue::Vec(list)),
                        items == list@,
                        it.seq() == items,
                        output@.len() == it.index(),
                        forall|j: int|
                            0 <= j < it.index() ==> T::converts_to(#[trigger] items[j], output@[j]),
                        forall|j: int| 0 <= j < it.index() ==> T::converts(#[trigger] items[j]),
                {
                    let ghost idx = it.index();
                    let ghost elem = item;
                    assert(elem == items[idx as int]);
                    assert(0 <= idx < items.len());
                    match T::try_from_value(item) {
                        Some(x) => output.push(x),
                        None => {
                            assert(!T::converts(items[idx as int]));
                            assert(v->Container_0->Vec_0@ == items);
                            assert(!T::converts(v->Container_0->Vec_0@[idx as int]));
                            assert(!Self::converts(v));
                            return None;
                        },
                    }
                }
                Some(output)
            },
            None => None,
        }
    }
}

} // verus!
