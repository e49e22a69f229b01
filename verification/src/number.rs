use vstd::prelude::*;

verus! {

/// Weight of the byte at position `n` of a little-endian base-256 numeral: 256^n.
pub open spec fn byte_weight(n: nat) -> int
    decreases n,
{
    if n == 0 {
        1
    } else {
        256 * byte_weight((n - 1) as nat)
    }
}

/// Unsigned value of little-endian base-256 digits.
pub open spec fn unsigned_le_value(bytes: Seq<u8>) -> int
    decreases bytes.len(),
{
    if bytes.len() == 0 {
        0
    } else {
        bytes[0] as int + 256 * unsigned_le_value(bytes.drop_first())
    }
}

/// Two's-complement value of little-endian bytes; the empty sequence stands for zero.
pub open spec fn signed_le_value(bytes: Seq<u8>) -> int {
    if bytes.len() > 0 && bytes.last() >= 128 {
        unsigned_le_value(bytes) - byte_weight(bytes.len())
    } else {
        unsigned_le_value(bytes)
    }
}

/// An arbitrary-precision integer, held as its two's-complement bytes, least significant first.
///
/// Two big integers are equal when their values are, whatever the number of bytes.
#[derive(Debug)]
pub struct BigInteger {
    pub bytes: Vec<u8>,
}

impl BigInteger {
    /// The integer that the bytes stand for.
    pub open spec fn value(&self) -> int {
        signed_le_value(self.bytes@)
    }
}

/// Calls `num_bigint::BigInt::from(u128)` and reads the result back with
/// `to_signed_bytes_le`. Claimed: the bytes stand for `v`.
#[verifier::external_body]
fn bigint_from_u128(v: u128) -> (r: BigInteger)
    ensures
        r.value() == v as int,
{
    BigInteger { bytes: num_bigint::BigInt::from(v).to_signed_bytes_le() }
}

/// Calls `num_bigint::BigInt::from(i128)` and reads the result back with
/// `to_signed_bytes_le`. Claimed: the bytes stand for `v`.
#[verifier::external_body]
fn bigint_from_i128(v: i128) -> (r: BigInteger)
    ensures
        r.value() == v as int,
{
    BigInteger { bytes: num_bigint::BigInt::from(v).to_signed_bytes_le() }
}

/// Builds a `num_bigint::BigInt` with `from_signed_bytes_le` and calls
/// `num_traits::ToPrimitive::to_i128` on it. Claimed: `Some` of the value exactly when it
/// lies in the range of `i128`, `None` otherwise.
#[verifier::external_body]
fn bigint_to_i128(b: &BigInteger) -> (r: Option<i128>)
    ensures
        r == (if i128::MIN <= b.value() <= i128::MAX {
            Some(b.value() as i128)
        } else {
            None::<i128>
        }),
{
    num_traits::ToPrimitive::to_i128(&num_bigint::BigInt::from_signed_bytes_le(&b.bytes))
}

impl BigInteger {
    /// The big integer with the value of `v`.
    pub fn from_i128(v: i128) -> (r: BigInteger)
        ensures
            r.value() == v as int,
    {
        bigint_from_i128(v)
    }

    /// The big integer with the value of `v`.
    pub fn from_u128(v: u128) -> (r: BigInteger)
        ensures
            r.value() == v as int,
    {
        bigint_from_u128(v)
    }

    /// The value as an `i128`, or `None` where it lies outside the range of `i128`.
    pub fn to_i128(&self) -> (r: Option<i128>)
        ensures
            r is Some <==> i128::MIN <= self.value() <= i128::MAX,
            r matches Some(x) ==> x as int == self.value(),
    {
        bigint_to_i128(self)
    }
}


/// Declares `num_bigfloat::BigFloat`, which numbers carry through unread.
#[verifier::external_type_specification]
#[verifier::external_body]
pub struct ExBigFloat(num_bigfloat::BigFloat);

/// A number of any of the kinds that the supported formats write.
///
/// A 64-bit float is held by its IEEE-754 bit pattern.
#[derive(Debug, PartialEq)]
pub enum Number {
    Int(i128),
    Float(u64),
    BigInt(BigInteger),
    BigFloat(num_bigfloat::BigFloat),
}

/// The mathematical content of a [`Number`].
pub enum NumberModel {
    Int(int),
    Float(u64),
    BigInt(int),
    BigFloat(num_bigfloat::BigFloat),
}

impl View for Number {
    type V = NumberModel;

    open spec fn view(&self) -> NumberModel {
        match self {
            Number::Int(i) => NumberModel::Int(*i as int),
            Number::Float(bits) => NumberModel::Float(*bits),
            Number::BigInt(b) => NumberModel::BigInt(b.value()),
            Number::BigFloat(f) => NumberModel::BigFloat(*f),
        }
    }
}

impl Default for Number {
    /// Zero, as an integer.
    fn default() -> (r: Number)
        ensures
            r@ == NumberModel::Int(0),
    {
        Number::Int(0)
    }
}

impl Number {
    /// The integer `v`.
    pub fn from_i8(v: i8) -> (r: Number)
        ensures
            r@ == NumberModel::Int(v as int),
    {
        Number::Int(v as i128)
    }

    /// The integer `v`.
    pub fn from_i16(v: i16) -> (r: Number)
        ensures
            r@ == NumberModel::Int(v as int),
    {
        Number::Int(v as i128)
    }

    /// The integer `v`.
    pub fn from_i32(v: i32) -> (r: Number)
        ensures
            r@ == NumberModel::Int(v as int),
    {
        Number::Int(v as i128)
    }

    /// The integer `v`.
    pub fn from_i64(v: i64) -> (r: Number)
        ensures
            r@ == NumberModel::Int(v as int),
    {
        Number::Int(v as i128)
    }

    /// The integer `v`.
    pub fn from_i128(v: i128) -> (r: Number)
        ensures
            r@ == NumberModel::Int(v as int),
    {
        Number::Int(v)
    }

    /// The integer `v`.
    pub fn from_isize(v: isize) -> (r: Number)
        ensures
            r@ == NumberModel::Int(v as int),
    {
        Number::Int(v as i128)
    }

    /// The integer `v`.
    pub fn from_u8(v: u8) -> (r: Number)
        ensures
            r@ == NumberModel::Int(v as int),
    {
        Number::Int(v as i128)
    }

    /// The integer `v`.
    pub fn from_u16(v: u16) -> (r: Number)
        ensures
            r@ == NumberModel::Int(v as int),
    {
        Number::Int(v as i128)
    }

    /// The integer `v`.
    pub fn from_u32(v: u32) -> (r: Number)
        ensures
            r@ == NumberModel::Int(v as int),
    {
        Number::Int(v as i128)
    }

    /// The integer `v`.
    pub fn from_u64(v: u64) -> (r: Number)
        ensures
            r@ == NumberModel::Int(v as int),
    {
        Number::Int(v as i128)
    }

    /// The integer `v`.
    pub fn from_usize(v: usize) -> (r: Number)
        ensures
            r@ == NumberModel::Int(v as int),
    {
        Number::Int(v as i128)
    }

    /// An integer when `v` fits in `i128`, a big integer otherwise.
    pub fn from_u128(v: u128) -> (r: Number)
        ensures
            v <= i128::MAX ==> r@ == NumberModel::Int(v as int),
            v > i128::MAX ==> r@ == NumberModel::BigInt(v as int),
    {
        if v <= i128::MAX as u128 {
            Number::Int(v as i128)
        } else {
            Number::BigInt(bigint_from_u128(v))
        }
    }

    /// A float, given by its IEEE-754 bit pattern.
    pub fn from_f64_bits(bits: u64) -> (r: Number)
        ensures
            r@ == NumberModel::Float(bits),
    {
        Number::Float(bits)
    }

    /// The big integer `v`.
    pub fn from_big_int(v: BigInteger) -> (r: Number)
        ensures
            r@ == NumberModel::BigInt(v.value()),
    {
        Number::BigInt(v)
    }

    /// The big float `v`.
    pub fn from_big_float(v: num_bigfloat::BigFloat) -> (r: Number)
        ensures
            r@ == NumberModel::BigFloat(v),
    {
        Number::BigFloat(v)
    }
}

/// The error of a failed number conversion, with its message.
#[derive(Debug, PartialEq, Eq)]
pub struct NumberConversionError(pub String);

impl Clone for NumberConversionError {
    /// An error with the same message.
    fn clone(&self) -> (r: NumberConversionError)
        ensures
            r == *self,
    {
        NumberConversionError(self.0.clone())
    }
}

/// The decimal digit character of `d`, for `d` from 0 to 9.
pub open spec fn digit_char(d: int) -> char {
    if d == 0 {
        '0'
    } else if d == 1 {
        '1'
    } else if d == 2 {
        '2'
    } else if d == 3 {
        '3'
    } else if d == 4 {
        '4'
    } else if d == 5 {
        '5'
    } else if d == 6 {
        '6'
    } else if d == 7 {
        '7'
    } else if d == 8 {
        '8'
    } else {
        '9'
    }
}

/// The decimal digits of `n`, most significant first, without leading zeros.
pub open spec fn decimal_digits(n: nat) -> Seq<char>
    decreases n,
{
    if n < 10 {
        seq![digit_char(n as int)]
    } else {
        decimal_digits(n / 10) + seq![digit_char((n % 10) as int)]
    }
}

/// The decimal text of `i`: its digits, after a minus sign where it is negative.
pub open spec fn decimal_text(i: int) -> Seq<char> {
    if i < 0 {
        seq!['-'] + decimal_digits((-i) as nat)
    } else {
        decimal_digits(i as nat)
    }
}

/// The message of a failed narrowing of `i` to the integer type named `target`.
pub open spec fn range_error_message(i: int, target: Seq<char>) -> Seq<char> {
    "value "@ + decimal_text(i) + " out of range for "@ + target
}

fn digit_str(d: u128) -> (r: &'static str)
    requires
        d < 10,
    ensures
        r@ == seq![digit_char(d as int)],
{
    proof {
        reveal_strlit("0");
        reveal_strlit("1");
        reveal_strlit("2");
        reveal_strlit("3");
        reveal_strlit("4");
        reveal_strlit("5");
        reveal_strlit("6");
        reveal_strlit("7");
        reveal_strlit("8");
        reveal_strlit("9");
    }
    if d == 0 {
        "0"
    } else if d == 1 {
        "1"
    } else if d == 2 {
        "2"
    } else if d == 3 {
        "3"
    } else if d == 4 {
        "4"
    } else if d == 5 {
        "5"
    } else if d == 6 {
        "6"
    } else if d == 7 {
        "7"
    } else if d == 8 {
        "8"
    } else {
        "9"
    }
}

fn append_digits(out: &mut String, n: u128)
    ensures
        final(out)@ == old(out)@ + decimal_digits(n as nat),
    decreases n,
{
    if n >= 10 {
        append_digits(out, n / 10);
    }
    let ghost mid = out@;
    out.append(digit_str(n % 10));
    proof {
        if n >= 10 {
            assert(old(out)@ + decimal_digits(n as nat) =~= mid + seq![digit_char((n % 10) as int)]);
        } else {
            assert(decimal_digits(n as nat) =~= seq![digit_char((n % 10) as int)]);
        }
    }
}

/// The decimal text of an integer, as `Display` writes it.
pub fn i128_decimal(i: i128) -> (r: String)
    ensures
        r@ == decimal_text(i as int),
{
    if i < 0 {
        let magnitude: u128 = ((-(i + 1)) as u128) + 1;
        let mut out = <String as vstd::string::StringExecFns>::from_str("-");
        proof {
            reveal_strlit("-");
        }
        append_digits(&mut out, magnitude);
        out
    } else {
        let mut out = String::new();
        append_digits(&mut out, i as u128);
        assert(out@ =~= decimal_text(i as int));
        out
    }
}

/// The error of a failed narrowing of `i` to the integer type named `target`.
fn range_error(i: i128, target: &str) -> (r: NumberConversionError)
    ensures
        r.0@ == range_error_message(i as int, target@),
{
    let mut msg = <String as vstd::string::StringExecFns>::from_str("value ");
    let digits = i128_decimal(i);
    msg.append(digits.as_str());
    msg.append(" out of range for ");
    msg.append(target);
    NumberConversionError(msg)
}

/// Narrows an integer to `i8`, failing with a range error where it does not fit.
pub fn i128_to_i8(i: i128) -> (r: Result<i8, NumberConversionError>)
    ensures
        r is Ok <==> i8::MIN <= i <= i8::MAX,
        r matches Ok(x) ==> x as int == i as int,
        r matches Err(e) ==> e.0@ == range_error_message(i as int, "i8"@),
{
    if i8::MIN as i128 <= i && i <= i8::MAX as i128 {
        Ok(i as i8)
    } else {
        Err(range_error(i, "i8"))
    }
}

/// Narrows an integer to `i16`, failing with a range error where it does not fit.
pub fn i128_to_i16(i: i128) -> (r: Result<i16, NumberConversionError>)
    ensures
        r is Ok <==> i16::MIN <= i <= i16::MAX,
        r matches Ok(x) ==> x as int == i as int,
        r matches Err(e) ==> e.0@ == range_error_message(i as int, "i16"@),
{
    if i16::MIN as i128 <= i && i <= i16::MAX as i128 {
        Ok(i as i16)
    } else {
        Err(range_error(i, "i16"))
    }
}

/// Narrows an integer to `i32`, failing with a range error where it does not fit.
pub fn i128_to_i32(i: i128) -> (r: Result<i32, NumberConversionError>)
    ensures
        r is Ok <==> i32::MIN <= i <= i32::MAX,
        r matches Ok(x) ==> x as int == i as int,
        r matches Err(e) ==> e.0@ == range_error_message(i as int, "i32"@),
{
    if i32::MIN as i128 <= i && i <= i32::MAX as i128 {
        Ok(i as i32)
    } else {
        Err(range_error(i, "i32"))
    }
}

/// Narrows an integer to `i64`, failing with a range error where it does not fit.
pub fn i128_to_i64(i: i128) -> (r: Result<i64, NumberConversionError>)
    ensures
        r is Ok <==> i64::MIN <= i <= i64::MAX,
        r matches Ok(x) ==> x as int == i as int,
        r matches Err(e) ==> e.0@ == range_error_message(i as int, "i64"@),
{
    if i64::MIN as i128 <= i && i <= i64::MAX as i128 {
        Ok(i as i64)
    } else {
        Err(range_error(i, "i64"))
    }
}

/// Narrows an integer to `isize`, failing with a range error where it does not fit.
pub fn i128_to_isize(i: i128) -> (r: Result<isize, NumberConversionError>)
    ensures
        r is Ok <==> isize::MIN <= i <= isize::MAX,
        r matches Ok(x) ==> x as int == i as int,
        r matches Err(e) ==> e.0@ == range_error_message(i as int, "isize"@),
{
    if isize::MIN as i128 <= i && i <= isize::MAX as i128 {
        Ok(i as isize)
    } else {
        Err(range_error(i, "isize"))
    }
}

/// Narrows an integer to `u8`, failing with a range error where it does not fit.
pub fn i128_to_u8(i: i128) -> (r: Result<u8, NumberConversionError>)
    ensures
        r is Ok <==> 0 <= i <= u8::MAX,
        r matches Ok(x) ==> x as int == i as int,
        r matches Err(e) ==> e.0@ == range_error_message(i as int, "u8"@),
{
    if 0 <= i && i <= u8::MAX as i128 {
        Ok(i as u8)
    } else {
        Err(range_error(i, "u8"))
    }
}

/// Narrows an integer to `u16`, failing with a range error where it does not fit.
pub fn i128_to_u16(i: i128) -> (r: Result<u16, NumberConversionError>)
    ensures
        r is Ok <==> 0 <= i <= u16::MAX,
        r matches Ok(x) ==> x as int == i as int,
        r matches Err(e) ==> e.0@ == range_error_message(i as int, "u16"@),
{
    if 0 <= i && i <= u16::MAX as i128 {
        Ok(i as u16)
    } else {
        Err(range_error(i, "u16"))
    }
}

/// Narrows an integer to `u32`, failing with a range error where it does not fit.
pub fn i128_to_u32(i: i128) -> (r: Result<u32, NumberConversionError>)
    ensures
        r is Ok <==> 0 <= i <= u32::MAX,
        r matches Ok(x) ==> x as int == i as int,
        r matches Err(e) ==> e.0@ == range_error_message(i as int, "u32"@),
{
    if 0 <= i && i <= u32::MAX as i128 {
        Ok(i as u32)
    } else {
        Err(range_error(i, "u32"))
    }
}

/// Narrows an integer to `u64`, failing with a range error where it does not fit.
pub fn i128_to_u64(i: i128) -> (r: Result<u64, NumberConversionError>)
    ensures
        r is Ok <==> 0 <= i <= u64::MAX,
        r matches Ok(x) ==> x as int == i as int,
        r matches Err(e) ==> e.0@ == range_error_message(i as int, "u64"@),
{
    if 0 <= i && i <= u64::MAX as i128 {
        Ok(i as u64)
    } else {
        Err(range_error(i, "u64"))
    }
}

/// Narrows an integer to `usize`, failing with a range error where it does not fit.
pub fn i128_to_usize(i: i128) -> (r: Result<usize, NumberConversionError>)
    ensures
        r is Ok <==> 0 <= i <= usize::MAX,
        r matches Ok(x) ==> x as int == i as int,
        r matches Err(e) ==> e.0@ == range_error_message(i as int, "usize"@),
{
    if 0 <= i && i <= usize::MAX as i128 {
        Ok(i as usize)
    } else {
        Err(range_error(i, "usize"))
    }
}

/// Narrows an integer to `u128`, failing with a range error where it does not fit.
pub fn i128_to_u128(i: i128) -> (r: Result<u128, NumberConversionError>)
    ensures
        r is Ok <==> 0 <= i <= u128::MAX,
        r matches Ok(x) ==> x as int == i as int,
        r matches Err(e) ==> e.0@ == range_error_message(i as int, "u128"@),
{
    if 0 <= i && i <= i128::MAX {
        Ok(i as u128)
    } else {
        Err(range_error(i, "u128"))
    }
}


impl NumberConversionError {
    /// The error as text, prefixed as its display shows it.
    pub fn to_display_string(&self) -> (r: String)
        ensures
            r@ == "Number conversion error: "@ + self.0@,
    {
        <String as vstd::string::StringExecFns>::from_str("Number conversion error: ").concat(
            self.0.as_str(),
        )
    }
}

/// The message of a failed conversion of the big integer `v` to `i128`.
pub open spec fn bigint_range_error_message(v: int) -> Seq<char> {
    "BigInt "@ + decimal_text(v) + " out of i128 range"@
}

/// Calls `to_string` (its `Display`) on the `num_bigint::BigInt` that
/// `from_signed_bytes_le` makes of the bytes. Claimed: the text is the decimal text of the
/// value, a minus sign before the digits of a negative value, as `BigInt`'s `Display`
/// writes it (`to_str_radix(10)`: digits without leading zeros, "0" for zero).
#[verifier::external_body]
fn bigint_decimal(b: &BigInteger) -> (r: String)
    ensures
        r@ == decimal_text(b.value()),
{
    num_bigint::BigInt::from_signed_bytes_le(&b.bytes).to_string()
}

/// The error of a failed conversion of a big integer to `i128`.
fn bigint_range_error(b: &BigInteger) -> (r: NumberConversionError)
    ensures
        r.0@ == bigint_range_error_message(b.value()),
{
    let mut msg = <String as vstd::string::StringExecFns>::from_str("BigInt ");
    let digits = bigint_decimal(b);
    msg.append(digits.as_str());
    msg.append(" out of i128 range");
    NumberConversionError(msg)
}

impl Number {
    /// The conversion to `i128` of an integer number: an integer as it is, a big integer where
    /// it fits and a range error otherwise. `None` for a float, which is converted where
    /// floats are read.
    pub fn integer_to_i128(&self) -> (r: Option<Result<i128, NumberConversionError>>)
        ensures
            self matches Number::Int(i) ==> r == Some(Ok::<i128, NumberConversionError>(*i)),
            self matches Number::BigInt(b) ==> {
                &&& r is Some
                &&& i128::MIN <= b.value() <= i128::MAX ==> r == Some(
                    Ok::<i128, NumberConversionError>(b.value() as i128),
                )
                &&& !(i128::MIN <= b.value() <= i128::MAX) ==> (r matches Some(Err(e))
                    && e.0@ == bigint_range_error_message(b.value()))
            },
            (self is Float || self is BigFloat) ==> r is None,
    {
        match self {
            Number::Int(i) => Some(Ok(*i)),
            Number::BigInt(b) => match b.to_i128() {
                Some(i) => Some(Ok(i)),
                None => Some(Err(bigint_range_error(b))),
            },
            Number::Float(_) => None,
            Number::BigFloat(_) => None,
        }
    }
}


impl Clone for BigInteger {
    /// A big integer with the same bytes.
    fn clone(&self) -> (r: BigInteger)
        ensures
            r.bytes@ == self.bytes@,
    {
        let bytes = self.bytes.clone();
        assert(bytes@ =~= self.bytes@);
        BigInteger { bytes }
    }
}

impl Clone for Number {
    /// A number with the same content.
    fn clone(&self) -> (r: Number)
        ensures
            r@ == self@,
    {
        match self {
            Number::Int(i) => Number::Int(*i),
            Number::Float(b) => Number::Float(*b),
            Number::BigInt(b) => Number::BigInt(b.clone()),
            Number::BigFloat(f) => Number::BigFloat(*f),
        }
    }
}


impl Number {
    /// The conversion to a big integer of an integer number, which keeps its value. `None`
    /// for a float, which is converted where floats are read.
    pub fn integer_to_big_integer(&self) -> (r: Option<BigInteger>)
        ensures
            self matches Number::Int(i) ==> (r matches Some(b) && b.value() == i as int),
            self matches Number::BigInt(x) ==> (r matches Some(b) && b.bytes@ == x.bytes@),
            (self is Float || self is BigFloat) ==> r is None,
    {
        match self {
            Number::Int(i) => Some(BigInteger::from_i128(*i)),
            Number::BigInt(b) => Some(b.clone()),
            Number::Float(_) => None,
            Number::BigFloat(_) => None,
        }
    }
}


impl From<i8> for Number {
    /// The integer `v`.
    fn from(v: i8) -> (r: Number) {
        Number::from_i8(v)
    }
}

impl vstd::std_specs::convert::FromSpecImpl<i8> for Number {
    open spec fn obeys_from_spec() -> bool {
        true
    }

    open spec fn from_spec(v: i8) -> Number {
        Number::Int(v as i128)
    }
}

impl From<i16> for Number {
    /// The integer `v`.
    fn from(v: i16) -> (r: Number) {
        Number::from_i16(v)
    }
}

impl vstd::std_specs::convert::FromSpecImpl<i16> for Number {
    open spec fn obeys_from_spec() -> bool {
        true
    }

    open spec fn from_spec(v: i16) -> Number {
        Number::Int(v as i128)
    }
}

impl From<i32> for Number {
    /// The integer `v`.
    fn from(v: i32) -> (r: Number) {
        Number::from_i32(v)
    }
}

impl vstd::std_specs::convert::FromSpecImpl<i32> for Number {
    open spec fn obeys_from_spec() -> bool {
        true
    }

    open spec fn from_spec(v: i32) -> Number {
        Number::Int(v as i128)
    }
}

impl From<i64> for Number {
    /// The integer `v`.
    fn from(v: i64) -> (r: Number) {
        Number::from_i64(v)
    }
}

impl vstd::std_specs::convert::FromSpecImpl<i64> for Number {
    open spec fn obeys_from_spec() -> bool {
        true
    }

    open spec fn from_spec(v: i64) -> Number {
        Number::Int(v as i128)
    }
}

impl From<i128> for Number {
    /// The integer `v`.
    fn from(v: i128) -> (r: Number) {
        Number::from_i128(v)
    }
}

impl vstd::std_specs::convert::FromSpecImpl<i128> for Number {
    open spec fn obeys_from_spec() -> bool {
        true
    }

    open spec fn from_spec(v: i128) -> Number {
        Number::Int(v as i128)
    }
}

impl From<isize> for Number {
    /// The integer `v`.
    fn from(v: isize) -> (r: Number) {
        Number::from_isize(v)
    }
}

impl vstd::std_specs::convert::FromSpecImpl<isize> for Number {
    open spec fn obeys_from_spec() -> bool {
        true
    }

    open spec fn from_spec(v: isize) -> Number {
        Number::Int(v as i128)
    }
}

impl From<u8> for Number {
    /// The integer `v`.
    fn from(v: u8) -> (r: Number) {
        Number::from_u8(v)
    }
}

impl vstd::std_specs::convert::FromSpecImpl<u8> for Number {
    open spec fn obeys_from_spec() -> bool {
        true
    }

    open spec fn from_spec(v: u8) -> Number {
        Number::Int(v as i128)
    }
}

impl From<u16> for Number {
    /// The integer `v`.
    fn from(v: u16) -> (r: Number) {
        Number::from_u16(v)
    }
}

impl vstd::std_specs::convert::FromSpecImpl<u16> for Number {
    open spec fn obeys_from_spec() -> bool {
        true
    }

    open spec fn from_spec(v: u16) -> Number {
        Number::Int(v as i128)
    }
}

impl From<u32> for Number {
    /// The integer `v`.
    fn from(v: u32) -> (r: Number) {
        Number::from_u32(v)
    }
}

impl vstd::std_specs::convert::FromSpecImpl<u32> for Number {
    open spec fn obeys_from_spec() -> bool {
        true
    }

    open spec fn from_spec(v: u32) -> Number {
        Number::Int(v as i128)
    }
}

impl From<u64> for Number {
    /// The integer `v`.
    fn from(v: u64) -> (r: Number) {
        Number::from_u64(v)
    }
}

impl vstd::std_specs::convert::FromSpecImpl<u64> for Number {
    open spec fn obeys_from_spec() -> bool {
        true
    }

    open spec fn from_spec(v: u64) -> Number {
        Number::Int(v as i128)
    }
}

impl From<usize> for Number {
    /// The integer `v`.
    fn from(v: usize) -> (r: Number) {
        Number::from_usize(v)
    }
}

impl vstd::std_specs::convert::FromSpecImpl<usize> for Number {
    open spec fn obeys_from_spec() -> bool {
        true
    }

    open spec fn from_spec(v: usize) -> Number {
        Number::Int(v as i128)
    }
}

impl From<u128> for Number {
    /// An integer when `v` fits in `i128`, a big integer otherwise.
    fn from(v: u128) -> (r: Number)
        ensures
            v <= i128::MAX ==> r@ == NumberModel::Int(v as int),
            v > i128::MAX ==> r@ == NumberModel::BigInt(v as int),
    {
        Number::from_u128(v)
    }
}

/// A big integer's bytes are those that `num_bigint` writes, which no spec function gives,
/// so the conversion is not given as a spec function: `obeys_from_spec` is `false`, and
/// `from`'s own `ensures` fixes the value of its result.
impl vstd::std_specs::convert::FromSpecImpl<u128> for Number {
    open spec fn obeys_from_spec() -> bool {
        false
    }

    open spec fn from_spec(v: u128) -> Number {
        vstd::pervasive::arbitrary()
    }
}

impl From<BigInteger> for Number {
    /// The big integer `v`.
    fn from(v: BigInteger) -> (r: Number) {
        Number::BigInt(v)
    }
}

impl vstd::std_specs::convert::FromSpecImpl<BigInteger> for Number {
    open spec fn obeys_from_spec() -> bool {
        true
    }

    open spec fn from_spec(v: BigInteger) -> Number {
        Number::BigInt(v)
    }
}

impl From<num_bigfloat::BigFloat> for Number {
    /// The big float `v`.
    fn from(v: num_bigfloat::BigFloat) -> (r: Number) {
        Number::BigFloat(v)
    }
}

impl vstd::std_specs::convert::FromSpecImpl<num_bigfloat::BigFloat> for Number {
    open spec fn obeys_from_spec() -> bool {
        true
    }

    open spec fn from_spec(v: num_bigfloat::BigFloat) -> Number {
        Number::BigFloat(v)
    }
}


/// Builds two `num_bigint::BigInt`s with `from_signed_bytes_le` and compares them with
/// `BigInt`'s `==`. Claimed: true exactly when the two values are equal (`BigInt` is kept
/// normalized, and its `==` compares sign and magnitude).
#[verifier::external_body]
fn bigint_eq(a: &BigInteger, b: &BigInteger) -> (r: bool)
    ensures
        r == (a.value() == b.value()),
{
    num_bigint::BigInt::from_signed_bytes_le(&a.bytes) == num_bigint::BigInt::from_signed_bytes_le(
        &b.bytes,
    )
}

impl PartialEq for BigInteger {
    fn eq(&self, other: &BigInteger) -> (r: bool) {
        bigint_eq(self, other)
    }
}

impl vstd::std_specs::cmp::PartialEqSpecImpl for BigInteger {
    open spec fn obeys_eq_spec() -> bool {
        true
    }

    /// Equal values.
    open spec fn eq_spec(&self, other: &BigInteger) -> bool {
        self.value() == other.value()
    }
}

impl Eq for BigInteger {}

} // verus!
