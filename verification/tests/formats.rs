use mirl_values::json::{
    container_value_to_serde_json, number_to_serde_json_number, simple_value_to_serde_json,
    to_serde_json_map, value_to_serde_json, JsonNumber, JsonValue,
};
use mirl_values::map::MapType;
use mirl_values::number::{BigInteger, Number};
use mirl_values::toml_value::TomlValue;
use mirl_values::value::{ContainerValue, Date, DateTime, SimpleValue, Value};

fn s(text: &str) -> Value {
    Value::from_string(text.to_string())
}

fn num(i: i128) -> Value {
    Value::from_number(Number::from_i128(i))
}

#[test]
fn json_numbers() {
    assert_eq!(number_to_serde_json_number(Number::Int(-5)), Some(JsonNumber::Int(-5)));
    assert_eq!(
        number_to_serde_json_number(Number::Int(u64::MAX as i128)),
        Some(JsonNumber::Int(u64::MAX as i128))
    );
    assert_eq!(number_to_serde_json_number(Number::Int(u64::MAX as i128 + 1)), None);
    assert_eq!(number_to_serde_json_number(Number::Int(i64::MIN as i128 - 1)), None);
    assert_eq!(
        number_to_serde_json_number(Number::BigInt(BigInteger::from_i128(42))),
        Some(JsonNumber::Int(42))
    );
    assert_eq!(number_to_serde_json_number(Number::from_u128(u128::MAX)), None);
    let bits = 2.5f64.to_bits();
    assert_eq!(number_to_serde_json_number(Number::Float(bits)), Some(JsonNumber::Float(bits)));
}

#[test]
fn json_simple_values() {
    assert_eq!(simple_value_to_serde_json(SimpleValue::Null), Some(JsonValue::Null));
    assert_eq!(simple_value_to_serde_json(SimpleValue::Bool(true)), Some(JsonValue::Bool(true)));
    assert_eq!(
        simple_value_to_serde_json(SimpleValue::String("t".to_string())),
        Some(JsonValue::String("t".to_string()))
    );
    assert_eq!(simple_value_to_serde_json(SimpleValue::Literal("t".to_string())), None);
    assert_eq!(simple_value_to_serde_json(SimpleValue::Bytes(vec![1], String::new())), None);
}

#[test]
fn json_containers() {
    let mut m: MapType<Value, Value> = MapType::new();
    m.map.push((s("k"), Value::from_vec(vec![num(1), Value::new_none()])));
    let v = Value::from_map(m);
    assert_eq!(
        value_to_serde_json(v),
        Some(JsonValue::Object(MapType { map: vec![(
            "k".to_string(),
            JsonValue::Array(vec![JsonValue::Number(JsonNumber::Int(1)), JsonValue::Null])
        )] }))
    );
    let mut bad: MapType<Value, Value> = MapType::new();
    bad.map.push((num(1), num(1)));
    assert_eq!(to_serde_json_map(bad), None);
    let nested_fail = ContainerValue::Vec(vec![num(1), Value::from_vec(vec![num(i128::MAX)])]);
    assert_eq!(container_value_to_serde_json(nested_fail), None);
    assert_eq!(num(3).to_serde_json(), Some(JsonValue::Number(JsonNumber::Int(3))));
    assert_eq!(s("x").to_serde_json_fallback(), Some(JsonValue::String("x".to_string())));
}

#[test]
fn toml_values_become_values() {
    let table = TomlValue::Table(vec![
        ("name".to_string(), TomlValue::String("miva".to_string())),
        ("n".to_string(), TomlValue::Integer(-7)),
        ("on".to_string(), TomlValue::Boolean(true)),
        ("list".to_string(), TomlValue::Array(vec![TomlValue::Integer(1), TomlValue::Float(0)])),
    ]);
    let v = Value::from_toml(table);
    assert_eq!(v.get("name"), Some(&s("miva")));
    assert_eq!(v.get("n"), Some(&num(-7)));
    assert_eq!(v.get("on"), Some(&Value::from_bool(true)));
    assert_eq!(
        v.get("list"),
        Some(&Value::from_vec(vec![num(1), Value::from_number(Number::Float(0))]))
    );
    assert!(value_to_serde_json(v).is_some());
}

#[test]
fn toml_datetime_has_no_json() {
    let dt = DateTime { date: Some(Date { year: 2024, month: 5, day: 1 }), time: None, offset: None };
    let v = Value::from_toml(TomlValue::Datetime(dt));
    assert_eq!(v, Value::Simple(SimpleValue::DateTime(dt)));
    assert_eq!(value_to_serde_json(v), None);
}

#[test]
fn json_floats_must_be_finite() {
    let inf = f64::INFINITY.to_bits();
    let nan = f64::NAN.to_bits();
    assert_eq!(number_to_serde_json_number(Number::Float(inf)), None);
    assert_eq!(number_to_serde_json_number(Number::Float(nan)), None);
    let tiny = f64::MIN_POSITIVE.to_bits();
    assert_eq!(number_to_serde_json_number(Number::Float(tiny)), Some(JsonNumber::Float(tiny)));
    let big = num_bigfloat::BigFloat::from_i128(3);
    assert_eq!(number_to_serde_json_number(Number::BigFloat(big)), Some(JsonNumber::BigFloat(big)));
}

#[test]
fn toml_infinite_float_has_no_json() {
    let t = TomlValue::Array(vec![TomlValue::Integer(1), TomlValue::Float(f64::INFINITY.to_bits())]);
    assert_eq!(value_to_serde_json(Value::from_toml(t)), None);
    let ok = TomlValue::Array(vec![TomlValue::Integer(i64::MIN), TomlValue::Float(1.0f64.to_bits())]);
    assert_eq!(
        value_to_serde_json(Value::from_toml(ok)),
        Some(JsonValue::Array(vec![
            JsonValue::Number(JsonNumber::Int(i64::MIN as i128)),
            JsonValue::Number(JsonNumber::Float(1.0f64.to_bits())),
        ]))
    );
}

#[test]
fn u128_numbers_to_json() {
    assert_eq!(
        number_to_serde_json_number(Number::from_u128(u64::MAX as u128)),
        Some(JsonNumber::Int(u64::MAX as i128))
    );
    assert_eq!(number_to_serde_json_number(Number::from_u128(u64::MAX as u128 + 1)), None);
    assert_eq!(
        number_to_serde_json_number(Number::from_i64(i64::MIN)),
        Some(JsonNumber::Int(i64::MIN as i128))
    );
}

#[test]
fn json_map_keeps_entry_order() {
    let mut m: MapType<Value, Value> = MapType::new();
    m.map.push((s("z"), num(1)));
    m.map.push((s("a"), s("x")));
    assert_eq!(
        to_serde_json_map(m),
        Some(JsonValue::Object(MapType { map: vec![
            ("z".to_string(), JsonValue::Number(JsonNumber::Int(1))),
            ("a".to_string(), JsonValue::String("x".to_string())),
        ] }))
    );
    let mut dup: MapType<Value, Value> = MapType::new();
    dup.map.push((s("k"), num(1)));
    dup.map.push((s("j"), num(2)));
    dup.map.push((s("k"), num(3)));
    assert_eq!(
        to_serde_json_map(dup),
        Some(JsonValue::Object(MapType { map: vec![
            ("k".to_string(), JsonValue::Number(JsonNumber::Int(3))),
            ("j".to_string(), JsonValue::Number(JsonNumber::Int(2))),
        ] }))
    );
    assert_eq!(
        container_value_to_serde_json(ContainerValue::Vec(vec![])),
        Some(JsonValue::Array(vec![]))
    );
}

#[test]
fn clone_copies_deeply() {
    let mut m: MapType<Value, Value> = MapType::new();
    m.map.push((s("k"), Value::from_vec(vec![num(1), Value::from_number(Number::from_u128(u128::MAX))])));
    let v = Value::from_map(m);
    let c = v.clone();
    assert_eq!(c, v);
    assert_eq!(BigInteger::from_i128(-7).clone(), BigInteger::from_i128(-7));
}

#[test]
fn value_from_toml_value() {
    let v: Value = Value::from(TomlValue::Array(vec![TomlValue::Boolean(false)]));
    assert_eq!(v, Value::from_vec(vec![Value::from_bool(false)]));
}
