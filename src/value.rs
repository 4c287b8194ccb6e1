use vstd::prelude::*;
use crate::types::{parsed_datetime, parsed_fields, parsed_fields_ok, DateTime, Timestamp, Type};

verus! {

/// Marker that binds an explicit SQL NULL.
#[derive(Copy, Clone, Debug)]
pub struct NullValue;

/// Every datum that crosses the boundary. A double is held as its IEEE-754
/// bit pattern, so the value model carries no floating-point arithmetic.
#[derive(PartialEq, Debug)]
pub enum Value {
    Null,
    Int(i64),
    Float(u64),
    Text(String),
    Blob(Vec<u8>),
}

/// The mathematical model of a `Value`.
pub enum ValueView {
    Null,
    Int(i64),
    Float(u64),
    Text(Seq<char>),
    Blob(Seq<u8>),
}

impl View for Value {
    type V = ValueView;

    open spec fn view(&self) -> ValueView {
        match self {
            Value::Null => ValueView::Null,
            Value::Int(v) => ValueView::Int(*v),
            Value::Float(b) => ValueView::Float(*b),
            Value::Text(s) => ValueView::Text(s@),
            Value::Blob(b) => ValueView::Blob(b@),
        }
    }
}

/// Why a value could not be read as the requested primitive.
#[derive(PartialEq, Eq, Structural, Copy, Clone, Debug)]
pub enum ValueError {
    /// The stored variant is not the one the requested primitive needs.
    TypeMismatch { expected: Type, found: Type },
    /// A text value does not hold a date-time in `YYYY-MM-DD HH:MM:SS` form.
    MalformedDateTime,
}

pub open spec fn kind_of(v: ValueView) -> Type {
    match v {
        ValueView::Null => Type::Null,
        ValueView::Int(_) => Type::Int64,
        ValueView::Float(_) => Type::Float64,
        ValueView::Text(_) => Type::Text,
        ValueView::Blob(_) => Type::Blob,
    }
}

pub open spec fn mismatch(expected: Type, v: ValueView) -> ValueError {
    ValueError::TypeMismatch { expected, found: kind_of(v) }
}

/// Reading a value as a 64-bit integer.
pub open spec fn int_of(v: ValueView) -> Result<i64, ValueError> {
    match v {
        ValueView::Int(x) => Ok(x),
        _ => Err(mismatch(Type::Int64, v)),
    }
}

/// Reading a value as the bit pattern of a double.
pub open spec fn float_bits_of(v: ValueView) -> Result<u64, ValueError> {
    match v {
        ValueView::Float(x) => Ok(x),
        _ => Err(mismatch(Type::Float64, v)),
    }
}

/// Reading a value as text.
pub open spec fn text_of(v: ValueView) -> Result<Seq<char>, ValueError> {
    match v {
        ValueView::Text(s) => Ok(s),
        _ => Err(mismatch(Type::Text, v)),
    }
}

/// Reading a value as a byte sequence.
pub open spec fn blob_of(v: ValueView) -> Result<Seq<u8>, ValueError> {
    match v {
        ValueView::Blob(b) => Ok(b),
        _ => Err(mismatch(Type::Blob, v)),
    }
}

impl Value {
    pub fn kind(&self) -> (r: Type)
        ensures
            r == kind_of(self@),
    {
        match self {
            Value::Null => Type::Null,
            Value::Int(_) => Type::Int64,
            Value::Float(_) => Type::Float64,
            Value::Text(_) => Type::Text,
            Value::Blob(_) => Type::Blob,
        }
    }

    /// An owned copy with the same contents.
    pub fn duplicate(&self) -> (r: Value)
        ensures
            r@ == self@,
    {
        match self {
            Value::Null => Value::Null,
            Value::Int(v) => Value::Int(*v),
            Value::Float(b) => Value::Float(*b),
            Value::Text(s) => Value::Text(s.clone()),
            Value::Blob(b) => {
                let c = b.clone();
                assert(c@ =~= b@);
                Value::Blob(c)
            },
        }
    }

    pub fn to_i64(&self) -> (r: Result<i64, ValueError>)
        ensures
            r == int_of(self@),
    {
        match self {
            Value::Int(v) => Ok(*v),
            _ => Err(ValueError::TypeMismatch { expected: Type::Int64, found: self.kind() }),
        }
    }

    pub fn to_f64_bits(&self) -> (r: Result<u64, ValueError>)
        ensures
            r == float_bits_of(self@),
    {
        match self {
            Value::Float(b) => Ok(*b),
            _ => Err(ValueError::TypeMismatch { expected: Type::Float64, found: self.kind() }),
        }
    }

    pub fn to_text(&self) -> (r: Result<String, ValueError>)
        ensures
            match r {
                Ok(s) => text_of(self@) == Ok::<Seq<char>, ValueError>(s@),
                Err(e) => text_of(self@) == Err::<Seq<char>, ValueError>(e),
            },
    {
        match self {
            Value::Text(s) => Ok(s.clone()),
            _ => Err(ValueError::TypeMismatch { expected: Type::Text, found: self.kind() }),
        }
    }

    pub fn to_blob(&self) -> (r: Result<Vec<u8>, ValueError>)
        ensures
            match r {
                Ok(b) => blob_of(self@) == Ok::<Seq<u8>, ValueError>(b@),
                Err(e) => blob_of(self@) == Err::<Seq<u8>, ValueError>(e),
            },
    {
        match self {
            Value::Blob(b) => {
                let c = b.clone();
                assert(c@ =~= b@);
                Ok(c)
            },
            _ => Err(ValueError::TypeMismatch { expected: Type::Blob, found: self.kind() }),
        }
    }

    pub fn to_timestamp(&self) -> (r: Result<Timestamp, ValueError>)
        ensures
            match int_of(self@) {
                Ok(x) => r == Ok::<Timestamp, ValueError>(Timestamp(x)),
                Err(e) => r == Err::<Timestamp, ValueError>(e),
            },
    {
        match self.to_i64() {
            Ok(v) => Ok(Timestamp::tm(v)),
            Err(e) => Err(e),
        }
    }
}

impl Value {
    /// Reads a text value in `YYYY-MM-DD HH:MM:SS` form as a date-time.
    pub fn to_datetime(&self) -> (r: Result<DateTime, ValueError>)
        ensures
            match self@ {
                ValueView::Text(s) => match parsed_datetime(s) {
                    Some(t) => if parsed_fields_ok(t) {
                        r matches Ok(d) && d.fields() == parsed_fields(t)
                    } else {
                        r == Err::<DateTime, ValueError>(ValueError::MalformedDateTime)
                    },
                    None => r == Err::<DateTime, ValueError>(ValueError::MalformedDateTime),
                },
                _ => r == Err::<DateTime, ValueError>(mismatch(Type::Text, self@)),
            },
    {
        match self {
            Value::Text(s) => match DateTime::parse(s.as_str()) {
                Some(d) => Ok(d),
                None => Err(ValueError::MalformedDateTime),
            },
            _ => Err(ValueError::TypeMismatch { expected: Type::Text, found: self.kind() }),
        }
    }
}

/// A native primitive that has exactly one `Value` form.
pub trait ValueConvertible {
    spec fn value_spec(&self) -> ValueView;

    fn to_value(&self) -> (r: Value)
        ensures
            r@ == self.value_spec(),
    ;
}

/// A double given by its IEEE-754 bit pattern.
#[derive(PartialEq, Eq, Structural, Copy, Clone, Debug)]
pub struct FloatBits(pub u64);

impl ValueConvertible for i8 {
    open spec fn value_spec(&self) -> ValueView {
        ValueView::Int(*self as i64)
    }

    fn to_value(&self) -> (r: Value) {
        Value::Int(*self as i64)
    }
}

impl ValueConvertible for u8 {
    open spec fn value_spec(&self) -> ValueView {
        ValueView::Int(*self as i64)
    }

    fn to_value(&self) -> (r: Value) {
        Value::Int(*self as i64)
    }
}

impl ValueConvertible for i16 {
    open spec fn value_spec(&self) -> ValueView {
        ValueView::Int(*self as i64)
    }

    fn to_value(&self) -> (r: Value) {
        Value::Int(*self as i64)
    }
}

impl ValueConvertible for u16 {
    open spec fn value_spec(&self) -> ValueView {
        ValueView::Int(*self as i64)
    }

    fn to_value(&self) -> (r: Value) {
        Value::Int(*self as i64)
    }
}

impl ValueConvertible for i32 {
    open spec fn value_spec(&self) -> ValueView {
        ValueView::Int(*self as i64)
    }

    fn to_value(&self) -> (r: Value) {
        Value::Int(*self as i64)
    }
}

impl ValueConvertible for u32 {
    open spec fn value_spec(&self) -> ValueView {
        ValueView::Int(*self as i64)
    }

    fn to_value(&self) -> (r: Value) {
        Value::Int(*self as i64)
    }
}

impl ValueConvertible for i64 {
    open spec fn value_spec(&self) -> ValueView {
        ValueView::Int(*self)
    }

    fn to_value(&self) -> (r: Value) {
        Value::Int(*self)
    }
}

impl ValueConvertible for FloatBits {
    open spec fn value_spec(&self) -> ValueView {
        ValueView::Float(self.0)
    }

    fn to_value(&self) -> (r: Value) {
        Value::Float(self.0)
    }
}

impl ValueConvertible for Timestamp {
    open spec fn value_spec(&self) -> ValueView {
        ValueView::Int(self.0)
    }

    fn to_value(&self) -> (r: Value) {
        Value::Int(self.0)
    }
}

impl<'a> ValueConvertible for &'a str {
    open spec fn value_spec(&self) -> ValueView {
        ValueView::Text(self@)
    }

    fn to_value(&self) -> (r: Value) {
        Value::Text(String::from_str(*self))
    }
}

impl ValueConvertible for String {
    open spec fn value_spec(&self) -> ValueView {
        ValueView::Text(self@)
    }

    fn to_value(&self) -> (r: Value) {
        Value::Text(self.clone())
    }
}

impl ValueConvertible for Vec<u8> {
    open spec fn value_spec(&self) -> ValueView {
        ValueView::Blob(self@)
    }

    fn to_value(&self) -> (r: Value) {
        let c = self.clone();
        assert(c@ =~= self@);
        Value::Blob(c)
    }
}

impl<'a> ValueConvertible for &'a Vec<u8> {
    open spec fn value_spec(&self) -> ValueView {
        ValueView::Blob(self@)
    }

    fn to_value(&self) -> (r: Value) {
        let c = (*self).clone();
        assert(c@ =~= self@);
        Value::Blob(c)
    }
}

impl ValueConvertible for DateTime {
    open spec fn value_spec(&self) -> ValueView {
        ValueView::Text(self.text())
    }

    fn to_value(&self) -> (r: Value) {
        Value::Text(self.to_text())
    }
}

impl ValueConvertible for NullValue {
    open spec fn value_spec(&self) -> ValueView {
        ValueView::Null
    }

    fn to_value(&self) -> (r: Value) {
        Value::Null
    }
}

impl From<i8> for Value {
    fn from(v: i8) -> (r: Value) {
        Value::Int(v as i64)
    }
}

impl vstd::std_specs::convert::FromSpecImpl<i8> for Value {
    open spec fn obeys_from_spec() -> bool {
        true
    }

    open spec fn from_spec(v: i8) -> Value {
        Value::Int(v as i64)
    }
}

impl From<u8> for Value {
    fn from(v: u8) -> (r: Value) {
        Value::Int(v as i64)
    }
}

impl vstd::std_specs::convert::FromSpecImpl<u8> for Value {
    open spec fn obeys_from_spec() -> bool {
        true
    }

    open spec fn from_spec(v: u8) -> Value {
        Value::Int(v as i64)
    }
}

impl From<i16> for Value {
    fn from(v: i16) -> (r: Value) {
        Value::Int(v as i64)
    }
}

impl vstd::std_specs::convert::FromSpecImpl<i16> for Value {
    open spec fn obeys_from_spec() -> bool {
        true
    }

    open spec fn from_spec(v: i16) -> Value {
        Value::Int(v as i64)
    }
}

impl From<u16> for Value {
    fn from(v: u16) -> (r: Value) {
        Value::Int(v as i64)
    }
}

impl vstd::std_specs::convert::FromSpecImpl<u16> for Value {
    open spec fn obeys_from_spec() -> bool {
        true
    }

    open spec fn from_spec(v: u16) -> Value {
        Value::Int(v as i64)
    }
}

impl From<i32> for Value {
    fn from(v: i32) -> (r: Value) {
        Value::Int(v as i64)
    }
}

impl vstd::std_specs::convert::FromSpecImpl<i32> for Value {
    open spec fn obeys_from_spec() -> bool {
        true
    }

    open spec fn from_spec(v: i32) -> Value {
        Value::Int(v as i64)
    }
}

impl From<u32> for Value {
    fn from(v: u32) -> (r: Value) {
        Value::Int(v as i64)
    }
}

impl vstd::std_specs::convert::FromSpecImpl<u32> for Value {
    open spec fn obeys_from_spec() -> bool {
        true
    }

    open spec fn from_spec(v: u32) -> Value {
        Value::Int(v as i64)
    }
}

impl From<i64> for Value {
    fn from(v: i64) -> (r: Value) {
        Value::Int(v)
    }
}

impl vstd::std_specs::convert::FromSpecImpl<i64> for Value {
    open spec fn obeys_from_spec() -> bool {
        true
    }

    open spec fn from_spec(v: i64) -> Value {
        Value::Int(v)
    }
}

impl From<FloatBits> for Value {
    fn from(v: FloatBits) -> (r: Value) {
        Value::Float(v.0)
    }
}

impl vstd::std_specs::convert::FromSpecImpl<FloatBits> for Value {
    open spec fn obeys_from_spec() -> bool {
        true
    }

    open spec fn from_spec(v: FloatBits) -> Value {
        Value::Float(v.0)
    }
}

impl From<Timestamp> for Value {
    fn from(v: Timestamp) -> (r: Value) {
        Value::Int(v.0)
    }
}

impl vstd::std_specs::convert::FromSpecImpl<Timestamp> for Value {
    open spec fn obeys_from_spec() -> bool {
        true
    }

    open spec fn from_spec(v: Timestamp) -> Value {
        Value::Int(v.0)
    }
}

impl From<String> for Value {
    fn from(v: String) -> (r: Value) {
        Value::Text(v)
    }
}

impl vstd::std_specs::convert::FromSpecImpl<String> for Value {
    open spec fn obeys_from_spec() -> bool {
        true
    }

    open spec fn from_spec(v: String) -> Value {
        Value::Text(v)
    }
}

impl From<Vec<u8>> for Value {
    fn from(v: Vec<u8>) -> (r: Value) {
        Value::Blob(v)
    }
}

impl vstd::std_specs::convert::FromSpecImpl<Vec<u8>> for Value {
    open spec fn obeys_from_spec() -> bool {
        true
    }

    open spec fn from_spec(v: Vec<u8>) -> Value {
        Value::Blob(v)
    }
}

impl From<NullValue> for Value {
    fn from(v: NullValue) -> (r: Value) {
        Value::Null
    }
}

impl vstd::std_specs::convert::FromSpecImpl<NullValue> for Value {
    open spec fn obeys_from_spec() -> bool {
        true
    }

    open spec fn from_spec(v: NullValue) -> Value {
        Value::Null
    }
}

/// Round trip through `Value::from`: each owned primitive converts to the
/// value that its `to_value` gives, so it reads back as itself.
pub proof fn lemma_from_round_trip(g: i64, x: FloatBits, ts: Timestamp, s: String, b: Vec<u8>)
    ensures
        int_of(<Value as vstd::std_specs::convert::FromSpec<i64>>::from_spec(g)@) == Ok::<i64, ValueError>(g),
        float_bits_of(<Value as vstd::std_specs::convert::FromSpec<FloatBits>>::from_spec(x)@) == Ok::<
            u64,
            ValueError,
        >(x.0),
        int_of(<Value as vstd::std_specs::convert::FromSpec<Timestamp>>::from_spec(ts)@) == Ok::<
            i64,
            ValueError,
        >(ts.0),
        text_of(<Value as vstd::std_specs::convert::FromSpec<String>>::from_spec(s)@) == Ok::<
            Seq<char>,
            ValueError,
        >(s@),
        blob_of(<Value as vstd::std_specs::convert::FromSpec<Vec<u8>>>::from_spec(b)@) == Ok::<
            Seq<u8>,
            ValueError,
        >(b@),
{
}

/// Round trip for integers: every integer width, widened on the way in, reads
/// back as the same number, and narrows back to the value it came from.
pub proof fn lemma_round_trip_ints(a: i8, b: u8, c: i16, d: u16, e: i32, f: u32, g: i64)
    ensures
        int_of(a.value_spec()) == Ok::<i64, ValueError>(a as i64) && (a as i64) as i8 == a,
        int_of(b.value_spec()) == Ok::<i64, ValueError>(b as i64) && (b as i64) as u8 == b,
        int_of(c.value_spec()) == Ok::<i64, ValueError>(c as i64) && (c as i64) as i16 == c,
        int_of(d.value_spec()) == Ok::<i64, ValueError>(d as i64) && (d as i64) as u16 == d,
        int_of(e.value_spec()) == Ok::<i64, ValueError>(e as i64) && (e as i64) as i32 == e,
        int_of(f.value_spec()) == Ok::<i64, ValueError>(f as i64) && (f as i64) as u32 == f,
        int_of(g.value_spec()) == Ok::<i64, ValueError>(g),
{
}

/// Round trip for the other primitives: a double's bit pattern, text, bytes
/// and a timestamp each read back unchanged.
pub proof fn lemma_round_trip_others(x: FloatBits, s: String, t: &str, b: Vec<u8>, ts: Timestamp)
    ensures
        float_bits_of(x.value_spec()) == Ok::<u64, ValueError>(x.0),
        text_of(s.value_spec()) == Ok::<Seq<char>, ValueError>(s@),
        text_of(t.value_spec()) == Ok::<Seq<char>, ValueError>(t@),
        blob_of(b.value_spec()) == Ok::<Seq<u8>, ValueError>(b@),
        blob_of((&b).value_spec()) == Ok::<Seq<u8>, ValueError>(b@),
        int_of(ts.value_spec()) == Ok::<i64, ValueError>(ts.0),
        NullValue.value_spec() == ValueView::Null,
{
}

/// Extraction never coerces: asking for another variant than the stored one
/// fails with a type mismatch naming both; text in particular is never read
/// as an integer.
pub proof fn lemma_extraction_is_strict(v: ValueView)
    ensures
        !(v is Int) ==> int_of(v) == Err::<i64, ValueError>(mismatch(Type::Int64, v)),
        !(v is Float) ==> float_bits_of(v) == Err::<u64, ValueError>(mismatch(Type::Float64, v)),
        !(v is Text) ==> text_of(v) == Err::<Seq<char>, ValueError>(mismatch(Type::Text, v)),
        !(v is Blob) ==> blob_of(v) == Err::<Seq<u8>, ValueError>(mismatch(Type::Blob, v)),
        v is Text ==> int_of(v) == Err::<i64, ValueError>(
            ValueError::TypeMismatch { expected: Type::Int64, found: Type::Text },
        ),
{
}

} // verus!
