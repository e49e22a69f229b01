# mirl_values

One `Value` type for the data of many formats (JSON, TOML, CSS and others), with
verified constructors, accessors, lookups and conversions.

A `Value` is a `SimpleValue` (the empty value, a boolean, a number, a string, a time, a
date-time, an angle, a literal, a length, a color, bytes) or a `ContainerValue` (a list,
or a map whose keys are values too). Every type has a model built from `vstd`'s `Seq`
and integers, and the contracts are stated over those models.

## Layout

- `src/value.rs`: the value types, their models, constructors, accessors, kind tests,
  `to_list`, `to_list_of_type`, `to_map_with_only_string_key`, deep copies.
- `src/map.rs`: `MapType`, a map that keeps its entries in insertion order.
- `src/index.rs`: `IndexValue`, lookups by position and by string key, for reading and
  for change, and `Value::get`.
- `src/number.rs`: `Number`, big integers held as two's-complement bytes, integer
  narrowing with range errors.
- `src/json.rs`: the JSON document of a value, if it has one.
- `src/toml_value.rs`: the value made from a TOML value.
- `src/patch.rs`: `TryFromPatch`, reading strings, booleans and lists back out of values.
- `src/laws.rs`: properties that relate several functions, proved.
- `app/lib.rs`: the edges that stay unverified: converting `toml::Value` and
  `serde_json::Value`, and the number conversions that read floating-point values.
- `tests/`: tests on concrete values.

Floats are held by their IEEE-754 bit patterns inside the verified library; the
arithmetic on them lives in `app/`.
