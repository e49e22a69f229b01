use mirl_values::index::IndexValue;
use mirl_values::map::MapType;
use mirl_values::number::{i128_decimal, i128_to_u8, i128_to_i8, i128_to_u128, BigInteger, Number};
use mirl_values::patch::TryFromPatch;
use mirl_values::value::{ContainerValue, SimpleValue, Value, ValueType};

fn s(text: &str) -> Value {
    Value::from_string(text.to_string())
}

fn num(i: i128) -> Value {
    Value::from_number(Number::from_i128(i))
}

fn sample_map() -> Value {
    let mut m: MapType<Value, Value> = MapType::new();
    m.map.push((s("a"), num(1)));
    m.map.push((Value::from_bool(true), num(2)));
    m.map.push((s("b"), num(3)));
    Value::from_map(m)
}

#[test]
fn constructors_make_their_kinds() {
    assert!(Value::from_string("x".to_string()).is_string());
    assert!(Value::new_string().is_string());
    assert!(Value::from_vec(vec![num(1)]).is_vec());
    assert!(Value::new_vec().is_vec());
    assert!(Value::new_map().is_map());
    assert!(Value::new_none().is_none());
    assert!(Value::new_number().is_number());
    assert!(Value::from_number_legacy(Number::from_u8(3)).is_number());
    assert!(Value::from_bool(true).is_bool());
    assert!(!Value::new_bool().is_string());
    assert_eq!(Value::new_bool(), Value::from_bool(false));
    assert_eq!(Value::new_number(), num(0));
    assert_eq!(Value::new_string().as_str(), Some(&String::new()));
    assert_eq!(s("x").get_value_type(), ValueType::String);
    assert!(s("x").is_type(ValueType::String));
    assert!(!s("x").is_type(ValueType::Number));
}

#[test]
fn accessors_read_back() {
    assert_eq!(s("hi").as_string_ref(), Some(&"hi".to_string()));
    assert_eq!(s("hi").into_string(), Some("hi".to_string()));
    assert_eq!(Value::from_bool(true).into_bool(), Some(true));
    assert_eq!(num(1).into_bool(), None);
    let list = Value::from_vec(vec![num(1), num(2)]);
    assert_eq!(list.as_array().map(|v| v.len()), Some(2));
    assert_eq!(list.as_vec_ref().map(|v| v.len()), Some(2));
    assert!(list.as_object().is_none());
    assert!(list.as_simple().is_none());
    assert!(list.as_container().is_some());
    assert_eq!(list.into_vec().map(|v| v.len()), Some(2));
    assert!(sample_map().as_map_ref().is_some());
    assert_eq!(sample_map().into_map().map(|m| m.len()), Some(3));
    assert!(matches!(s("z").into_simple(), Some(SimpleValue::String(_))));
    assert!(matches!(sample_map().into_container(), Some(ContainerValue::Object(_))));
}

#[test]
fn mutable_accessors_change_the_value() {
    let mut v = Value::from_bool(false);
    if let Some(simple) = v.as_simple_mut() {
        *simple = SimpleValue::Bool(true);
    }
    assert_eq!(v, Value::from_bool(true));
    assert!(v.as_container_mut().is_none());
    let mut list = Value::new_vec();
    if let Some(ContainerValue::Vec(items)) = list.as_container_mut() {
        items.push(num(7));
    }
    assert_eq!(list, Value::from_vec(vec![num(7)]));
}

#[test]
fn to_list_of_each_kind() {
    let simple = num(5);
    assert_eq!(simple.to_list(), vec![&simple]);
    let list = Value::from_vec(vec![num(1), s("x")]);
    assert_eq!(list.to_list(), vec![&num(1), &s("x")]);
    let map = sample_map();
    assert_eq!(map.to_list(), vec![&s("a"), &Value::from_bool(true), &s("b")]);
}

#[test]
fn to_list_of_type_checks_every_item() {
    let list = Value::from_vec(vec![num(1), num(2)]);
    assert_eq!(list.to_list_of_type(ValueType::Number), Some(vec![&num(1), &num(2)]));
    assert_eq!(list.to_list_of_type(ValueType::String), None);
    let mixed = Value::from_vec(vec![num(1), s("x")]);
    assert_eq!(mixed.to_list_of_type(ValueType::Number), None);
    let map = sample_map();
    assert_eq!(map.to_list_of_type(ValueType::String), None);
    let simple = s("q");
    assert_eq!(simple.to_list_of_type(ValueType::String), Some(vec![&simple]));
    assert_eq!(simple.to_list_of_type(ValueType::Bool), None);
    assert_eq!(Value::new_vec().to_list_of_type(ValueType::Bool), Some(vec![]));
}

#[test]
fn get_by_position() {
    let list = Value::from_vec(vec![num(10), num(20)]);
    assert_eq!(list.get(&1usize), Some(&num(20)));
    assert_eq!(list.get(&2usize), None);
    let map = sample_map();
    assert_eq!(map.get(&0usize), Some(&num(1)));
    assert_eq!(map.get(&2usize), Some(&num(3)));
    assert_eq!(num(3).get(&0usize), None);
}

#[test]
fn get_by_key() {
    let map = sample_map();
    assert_eq!(map.get("a"), Some(&num(1)));
    assert_eq!(map.get("b"), Some(&num(3)));
    assert_eq!(map.get("c"), None);
    assert_eq!(Value::from_vec(vec![s("a")]).get("a"), None);
    assert_eq!(s("a").get("a"), None);
}

#[test]
fn get_by_key_passes_container_keys() {
    let mut m: MapType<Value, Value> = MapType::new();
    m.map.push((s("a"), num(1)));
    m.map.push((Value::new_vec(), num(2)));
    m.map.push((s("b"), num(3)));
    let map = Value::from_map(m);
    assert_eq!(map.get("a"), Some(&num(1)));
    assert_eq!(map.get("b"), Some(&num(3)));
    let mut m2: MapType<Value, Value> = MapType::new();
    m2.map.push((Value::new_vec(), Value::new_none()));
    m2.map.push((s("a"), Value::from_bool(true)));
    m2.map.push((s("a"), Value::from_bool(false)));
    assert_eq!(Value::from_map(m2).get("a"), Some(&Value::from_bool(true)));
}

#[test]
fn index_mut_write_then_read() {
    let mut list = Value::from_vec(vec![num(10), num(20)]);
    if let Some(child) = 0usize.index_value_mut(&mut list) {
        *child = s("new");
    }
    assert_eq!(list.get(&0usize), Some(&s("new")));
    assert_eq!(list.get(&1usize), Some(&num(20)));
    let mut map = sample_map();
    if let Some(child) = "b".index_value_mut(&mut map) {
        *child = num(99);
    }
    assert_eq!(map.get("b"), Some(&num(99)));
    assert_eq!(map.get("a"), Some(&num(1)));
    assert!("zz".index_value_mut(&mut map).is_none());
    assert!(5usize.index_value_mut(&mut map).is_none());
}

#[test]
fn string_map_insert_replaces_or_appends() {
    let mut m: MapType<String, i32> = MapType::new();
    m.insert("x".to_string(), 1);
    m.insert("y".to_string(), 2);
    m.insert("x".to_string(), 3);
    assert_eq!(m.map, vec![("x".to_string(), 3), ("y".to_string(), 2)]);
    assert_eq!(m.get_index(1), Some(&2));
    assert_eq!(m.get_index(2), None);
}

#[test]
fn map_with_only_string_keys() {
    let map = sample_map();
    let keyed = map
        .to_map_with_only_string_key(|k: &Value| match k.as_string_ref() {
            Some(text) => text.clone(),
            None => "other".to_string(),
        })
        .unwrap();
    assert_eq!(
        keyed.map,
        vec![("a".to_string(), num(1)), ("other".to_string(), num(2)), ("b".to_string(), num(3))]
    );
    let collide = sample_map().to_map_with_only_string_key(|_k: &Value| "k".to_string()).unwrap();
    assert_eq!(collide.map, vec![("k".to_string(), num(3))]);
    assert!(num(1).to_map_with_only_string_key(|_k: &Value| String::new()).is_none());
}

#[test]
fn try_from_value_reads_back() {
    assert_eq!(String::try_from_value(s("abc")), Some("abc".to_string()));
    assert_eq!(String::try_from_value(num(1)), None);
    assert_eq!(bool::try_from_value(Value::from_bool(true)), Some(true));
    assert_eq!(bool::try_from_value(s("true")), None);
    assert_eq!(
        Vec::<String>::try_from_value(Value::from_vec(vec![s("a"), s("b")])),
        Some(vec!["a".to_string(), "b".to_string()])
    );
    assert_eq!(Vec::<String>::try_from_value(Value::from_vec(vec![s("a"), num(2)])), None);
    assert_eq!(Vec::<bool>::try_from_value(s("a")), None);
    assert_eq!(
        Vec::<Vec<bool>>::try_from_value(Value::from_vec(vec![Value::from_vec(vec![
            Value::from_bool(true)
        ])])),
        Some(vec![vec![true]])
    );
}

#[test]
fn numbers_from_integers() {
    assert_eq!(Number::from_i8(-3), Number::Int(-3));
    assert_eq!(Number::from_u64(u64::MAX), Number::Int(u64::MAX as i128));
    assert_eq!(Number::from_u128(5), Number::Int(5));
    match Number::from_u128(u128::MAX) {
        Number::BigInt(b) => assert_eq!(b.to_i128(), None),
        other => panic!("expected a big integer, got {:?}", other),
    }
    assert_eq!(Number::default(), Number::Int(0));
    assert_eq!(Number::from_f64_bits(1.5f64.to_bits()), Number::Float(1.5f64.to_bits()));
}

#[test]
fn big_integers_round_trip() {
    assert_eq!(BigInteger::from_i128(-1125).bytes, vec![155, 251]);
    assert_eq!(BigInteger::from_i128(i128::MIN).to_i128(), Some(i128::MIN));
    assert_eq!(BigInteger::from_u128(300).to_i128(), Some(300));
    assert_eq!(BigInteger { bytes: vec![] }.to_i128(), Some(0));
    assert_eq!(BigInteger { bytes: vec![0xff] }.to_i128(), Some(-1));
}

#[test]
fn integer_numbers_to_i128() {
    assert_eq!(Number::Int(7).integer_to_i128(), Some(Ok(7)));
    assert_eq!(Number::Float(0).integer_to_i128(), None);
    let big = Number::from_u128(u128::MAX);
    let err = big.integer_to_i128().unwrap().unwrap_err();
    assert_eq!(err.0, format!("BigInt {} out of i128 range", u128::MAX));
}

#[test]
fn narrowing_checks_the_range() {
    assert_eq!(i128_to_u8(255), Ok(255));
    assert_eq!(i128_to_u8(300).unwrap_err().0, "value 300 out of range for u8");
    assert_eq!(i128_to_u8(-1).unwrap_err().0, "value -1 out of range for u8");
    assert_eq!(i128_to_i8(-128), Ok(-128));
    assert_eq!(i128_to_i8(128).unwrap_err().0, "value 128 out of range for i8");
    assert_eq!(i128_to_u128(-5).unwrap_err().0, "value -5 out of range for u128");
    assert_eq!(i128_to_u128(5), Ok(5));
}

#[test]
fn conversion_error_display() {
    let e = i128_to_u8(256).unwrap_err();
    assert_eq!(e.to_display_string(), "Number conversion error: value 256 out of range for u8");
}

#[test]
fn values_from_parts() {
    assert_eq!(Value::from(SimpleValue::Bool(true)), Value::from_bool(true));
    assert_eq!(Value::from(ContainerValue::Vec(vec![])), Value::new_vec());
    let copy = ContainerValue::Vec(vec![num(1)]).clone();
    assert_eq!(copy, ContainerValue::Vec(vec![num(1)]));
}

#[test]
fn integer_numbers_to_big_integers() {
    assert_eq!(Number::Int(-1125).integer_to_big_integer().map(|b| b.bytes), Some(vec![155, 251]));
    let big = BigInteger { bytes: vec![1, 2, 3] };
    assert_eq!(Number::BigInt(big.clone()).integer_to_big_integer(), Some(big));
    assert_eq!(Number::Float(0).integer_to_big_integer(), None);
}

#[test]
fn decimal_text_of_integers() {
    assert_eq!(i128_decimal(0), "0");
    assert_eq!(i128_decimal(7), "7");
    assert_eq!(i128_decimal(-45), "-45");
    assert_eq!(i128_decimal(i128::MIN), i128::MIN.to_string());
    assert_eq!(i128_decimal(i128::MAX), i128::MAX.to_string());
    assert_eq!(
        Number::from_u128(u128::MAX).integer_to_i128().unwrap().unwrap_err().0,
        format!("BigInt {} out of i128 range", u128::MAX)
    );
    let neg = Number::BigInt(BigInteger { bytes: vec![0, 0, 0, 0, 0, 0, 0, 0, 0, 0, 0, 0, 0, 0, 0, 0, 0x80] });
    let err = neg.integer_to_i128().unwrap().unwrap_err().0;
    assert_eq!(err, "BigInt -43556142965880123323311949751266331066368 out of i128 range");
}

#[test]
fn big_integers_compare_by_value() {
    assert_eq!(BigInteger { bytes: vec![1] }, BigInteger { bytes: vec![1, 0] });
    assert_eq!(BigInteger { bytes: vec![0xff] }, BigInteger { bytes: vec![0xff, 0xff] });
    assert_eq!(BigInteger { bytes: vec![] }, BigInteger { bytes: vec![0] });
    assert_ne!(BigInteger { bytes: vec![0xff] }, BigInteger { bytes: vec![0xff, 0] });
    assert_eq!(Number::BigInt(BigInteger { bytes: vec![7, 0, 0] }), Number::BigInt(BigInteger { bytes: vec![7] }));
}

#[test]
fn numbers_from_std_conversions() {
    assert_eq!(Number::from(5i32), Number::Int(5));
    assert_eq!(Number::from(200u8), Number::Int(200));
    assert_eq!(Number::from(-9isize), Number::Int(-9));
    assert_eq!(Number::from(3u128), Number::Int(3));
    assert!(matches!(Number::from(u128::MAX), Number::BigInt(_)));
    assert_eq!(Number::from(BigInteger::from_i128(4)), Number::BigInt(BigInteger { bytes: vec![4] }));
}
