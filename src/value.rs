use vstd::prelude::*;

verus! {

/// A value held in a column or bound to a parameter.
///
/// A floating-point number is carried as its IEEE 754 bit pattern
/// (`f64::to_bits`), which the library never interprets.
#[derive(Clone, Debug)]
pub enum Value {
    /// Binary data.
    Binary(Vec<u8>),
    /// A floating-point number, as its bit pattern.
    Float(u64),
    /// An integer number.
    Integer(i64),
    /// A string.
    String(String),
    /// A null value.
    Null,
}

/// What a value holds, with its bytes and characters as sequences.
pub enum ValueView {
    Binary(Seq<u8>),
    Float(u64),
    Integer(i64),
    String(Seq<char>),
    Null,
}

impl View for Value {
    type V = ValueView;

    open spec fn view(&self) -> ValueView {
        match self {
            Value::Binary(b) => ValueView::Binary(b@),
            Value::Float(f) => ValueView::Float(*f),
            Value::Integer(i) => ValueView::Integer(*i),
            Value::String(s) => ValueView::String(s@),
            Value::Null => ValueView::Null,
        }
    }
}

impl DeepView for Value {
    type V = ValueView;

    open spec fn deep_view(&self) -> ValueView {
        self@
    }
}

/// The type of a value.
#[derive(Clone, Copy, Debug, PartialEq, Eq, Structural)]
pub enum Type {
    /// The binary type.
    Binary,
    /// The floating-point type.
    Float,
    /// The integer type.
    Integer,
    /// The string type.
    String,
    /// The null type.
    Null,
}

/// A floating-point number as its IEEE 754 bit pattern.
#[derive(Clone, Copy, Debug, PartialEq, Eq, Structural)]
pub struct FloatBits(pub u64);

impl View for FloatBits {
    type V = u64;

    open spec fn view(&self) -> u64 {
        self.0
    }
}

impl DeepView for FloatBits {
    type V = u64;

    open spec fn deep_view(&self) -> u64 {
        self.0
    }
}

/// The type tag of a value.
pub open spec fn kind_of(v: ValueView) -> Type {
    match v {
        ValueView::Binary(_) => Type::Binary,
        ValueView::Float(_) => Type::Float,
        ValueView::Integer(_) => Type::Integer,
        ValueView::String(_) => Type::String,
        ValueView::Null => Type::Null,
    }
}

/// Copy a byte vector.
pub fn copy_bytes(b: &[u8]) -> (r: Vec<u8>)
    ensures
        r@ == b@,
{
    let mut r: Vec<u8> = Vec::with_capacity(b.len());
    let mut i: usize = 0;
    while i < b.len()
        invariant
            i <= b@.len(),
            r@ == b@.subrange(0, i as int),
        decreases b@.len() - i,
    {
        r.push(b[i]);
        i = i + 1;
        assert(r@ =~= b@.subrange(0, i as int));
    }
    assert(r@ =~= b@);
    r
}

fn same_bytes(a: &Vec<u8>, b: &Vec<u8>) -> (r: bool)
    ensures
        r == (a@ == b@),
{
    if a.len() != b.len() {
        return false;
    }
    let mut i: usize = 0;
    while i < a.len()
        invariant
            i <= a@.len(),
            a@.len() == b@.len(),
            a@.subrange(0, i as int) == b@.subrange(0, i as int),
        decreases a@.len() - i,
    {
        if a[i] != b[i] {
            assert(a@[i as int] != b@[i as int]);
            return false;
        }
        assert(a@.subrange(0, i + 1) =~= a@.subrange(0, i as int).push(a@[i as int]));
        assert(b@.subrange(0, i + 1) =~= b@.subrange(0, i as int).push(b@[i as int]));
        i = i + 1;
    }
    assert(a@ =~= a@.subrange(0, i as int));
    assert(b@ =~= b@.subrange(0, i as int));
    true
}

impl Value {
    /// Return the type.
    pub fn kind(&self) -> (r: Type)
        ensures
            r == kind_of(self@),
    {
        match self {
            Value::Binary(_) => Type::Binary,
            Value::Float(_) => Type::Float,
            Value::Integer(_) => Type::Integer,
            Value::String(_) => Type::String,
            Value::Null => Type::Null,
        }
    }

    /// Make a copy of the value.
    pub fn copy(&self) -> (r: Value)
        ensures
            r@ == self@,
    {
        match self {
            Value::Binary(b) => Value::Binary(copy_bytes(b.as_slice())),
            Value::Float(f) => Value::Float(*f),
            Value::Integer(i) => Value::Integer(*i),
            Value::String(s) => Value::String(s.clone()),
            Value::Null => Value::Null,
        }
    }

    /// Try to convert the value into a host value; a value of another
    /// variant is an error.
    pub fn try_into<T: ValueInto>(&self) -> (r: crate::error::Result<T>)
        ensures
            match r {
                Ok(x) => T::decode(self@) == Some(x.deep_view()),
                Err(e) => T::decode(self@) is None && e@ == crate::error::message_error(
                    crate::error::conversion_text(),
                ),
            },
    {
        match T::into(self) {
            Some(x) => Ok(x),
            None => Err(crate::error::conversion_error()),
        }
    }
}

impl PartialEq for Value {
    /// Values are equal when they are of the same variant and hold the same
    /// data; floating-point numbers compare by their bit patterns.
    fn eq(&self, other: &Value) -> (r: bool)
        ensures
            r == (self@ == other@),
    {
        match (self, other) {
            (Value::Binary(a), Value::Binary(b)) => same_bytes(a, b),
            (Value::Float(a), Value::Float(b)) => *a == *b,
            (Value::Integer(a), Value::Integer(b)) => *a == *b,
            (Value::String(a), Value::String(b)) => *a == *b,
            (Value::Null, Value::Null) => true,
            _ => false,
        }
    }
}

impl vstd::std_specs::cmp::PartialEqSpecImpl for Value {
    open spec fn obeys_eq_spec() -> bool {
        true
    }

    open spec fn eq_spec(&self, other: &Value) -> bool {
        self@ == other@
    }
}

/// A host type that a value converts into, where the variant fits.
pub trait ValueInto: Sized + DeepView {
    /// What a value converts into, if anything.
    spec fn decode(v: ValueView) -> Option<Self::V>;

    /// Convert a value.
    fn into(value: &Value) -> (r: Option<Self>)
        ensures
            match r {
                Some(x) => Self::decode(value@) == Some(x.deep_view()),
                None => Self::decode(value@) is None,
            };
}

impl ValueInto for Value {
    open spec fn decode(v: ValueView) -> Option<ValueView> {
        Some(v)
    }

    fn into(value: &Value) -> (r: Option<Value>) {
        Some(value.copy())
    }
}

impl ValueInto for Vec<u8> {
    open spec fn decode(v: ValueView) -> Option<Seq<u8>> {
        match v {
            ValueView::Binary(b) => Some(b),
            _ => None,
        }
    }

    fn into(value: &Value) -> (r: Option<Vec<u8>>) {
        match value {
            Value::Binary(b) => {
                let r = copy_bytes(b.as_slice());
                assert(r.deep_view() =~= r@);
                Some(r)
            },
            _ => None,
        }
    }
}

impl ValueInto for FloatBits {
    open spec fn decode(v: ValueView) -> Option<u64> {
        match v {
            ValueView::Float(f) => Some(f),
            _ => None,
        }
    }

    fn into(value: &Value) -> (r: Option<FloatBits>) {
        match value {
            Value::Float(f) => Some(FloatBits(*f)),
            _ => None,
        }
    }
}

impl ValueInto for i64 {
    open spec fn decode(v: ValueView) -> Option<i64> {
        match v {
            ValueView::Integer(i) => Some(i),
            _ => None,
        }
    }

    fn into(value: &Value) -> (r: Option<i64>) {
        match value {
            Value::Integer(i) => Some(*i),
            _ => None,
        }
    }
}

impl ValueInto for String {
    open spec fn decode(v: ValueView) -> Option<Seq<char>> {
        match v {
            ValueView::String(s) => Some(s),
            _ => None,
        }
    }

    fn into(value: &Value) -> (r: Option<String>) {
        match value {
            Value::String(s) => Some(s.clone()),
            _ => None,
        }
    }
}

impl ValueInto for () {
    open spec fn decode(v: ValueView) -> Option<()> {
        match v {
            ValueView::Null => Some(()),
            _ => None,
        }
    }

    fn into(value: &Value) -> (r: Option<()>) {
        match value {
            Value::Null => Some(()),
            _ => None,
        }
    }
}

impl<T: ValueInto> ValueInto for Option<T> {
    /// A null value converts into `None`; any other value into `Some` of
    /// what it converts into as `T`.
    open spec fn decode(v: ValueView) -> Option<Option<T::V>> {
        match v {
            ValueView::Null => Some(None),
            _ => match T::decode(v) {
                Some(x) => Some(Some(x)),
                None => None,
            },
        }
    }

    fn into(value: &Value) -> (r: Option<Option<T>>) {
        match value {
            Value::Null => Some(None),
            _ => match T::into(value) {
                Some(x) => Some(Some(x)),
                None => None,
            },
        }
    }
}

/// A host type that binds to a parameter as a value.
pub trait BindableWithIndex {
    /// The value that this binds as.
    spec fn bound(&self) -> ValueView;

    /// Return the value that this binds as.
    fn to_value(&self) -> (r: Value)
        ensures
            r@ == self.bound();
}

impl BindableWithIndex for Value {
    open spec fn bound(&self) -> ValueView {
        self@
    }

    fn to_value(&self) -> (r: Value) {
        self.copy()
    }
}

impl BindableWithIndex for i64 {
    open spec fn bound(&self) -> ValueView {
        ValueView::Integer(*self)
    }

    fn to_value(&self) -> (r: Value) {
        Value::Integer(*self)
    }
}

impl BindableWithIndex for FloatBits {
    open spec fn bound(&self) -> ValueView {
        ValueView::Float(self.0)
    }

    fn to_value(&self) -> (r: Value) {
        Value::Float(self.0)
    }
}

impl<'a> BindableWithIndex for &'a str {
    open spec fn bound(&self) -> ValueView {
        ValueView::String((*self)@)
    }

    fn to_value(&self) -> (r: Value) {
        Value::String(String::from_str(*self))
    }
}

impl BindableWithIndex for String {
    open spec fn bound(&self) -> ValueView {
        ValueView::String(self@)
    }

    fn to_value(&self) -> (r: Value) {
        Value::String(self.clone())
    }
}

impl<'a> BindableWithIndex for &'a [u8] {
    open spec fn bound(&self) -> ValueView {
        ValueView::Binary((*self)@)
    }

    fn to_value(&self) -> (r: Value) {
        Value::Binary(copy_bytes(*self))
    }
}

impl BindableWithIndex for Vec<u8> {
    open spec fn bound(&self) -> ValueView {
        ValueView::Binary(self@)
    }

    fn to_value(&self) -> (r: Value) {
        Value::Binary(copy_bytes(self.as_slice()))
    }
}

impl BindableWithIndex for () {
    open spec fn bound(&self) -> ValueView {
        ValueView::Null
    }

    fn to_value(&self) -> (r: Value) {
        Value::Null
    }
}

impl<T: BindableWithIndex> BindableWithIndex for Option<T> {
    /// `Some` binds as what it holds, `None` as null.
    open spec fn bound(&self) -> ValueView {
        match self {
            Some(v) => v.bound(),
            None => ValueView::Null,
        }
    }

    fn to_value(&self) -> (r: Value) {
        match self {
            Some(v) => v.to_value(),
            None => Value::Null,
        }
    }
}

impl From<i64> for Value {
    fn from(value: i64) -> Value {
        Value::Integer(value)
    }
}

impl vstd::std_specs::convert::FromSpecImpl<i64> for Value {
    open spec fn obeys_from_spec() -> bool {
        true
    }

    open spec fn from_spec(v: i64) -> Value {
        Value::Integer(v)
    }
}

impl From<String> for Value {
    fn from(value: String) -> Value {
        Value::String(value)
    }
}

impl vstd::std_specs::convert::FromSpecImpl<String> for Value {
    open spec fn obeys_from_spec() -> bool {
        true
    }

    open spec fn from_spec(v: String) -> Value {
        Value::String(v)
    }
}

impl From<Vec<u8>> for Value {
    fn from(value: Vec<u8>) -> Value {
        Value::Binary(value)
    }
}

impl vstd::std_specs::convert::FromSpecImpl<Vec<u8>> for Value {
    open spec fn obeys_from_spec() -> bool {
        true
    }

    open spec fn from_spec(v: Vec<u8>) -> Value {
        Value::Binary(v)
    }
}

impl From<FloatBits> for Value {
    fn from(value: FloatBits) -> Value {
        Value::Float(value.0)
    }
}

impl vstd::std_specs::convert::FromSpecImpl<FloatBits> for Value {
    open spec fn obeys_from_spec() -> bool {
        true
    }

    open spec fn from_spec(v: FloatBits) -> Value {
        Value::Float(v.0)
    }
}

impl From<()> for Value {
    fn from(value: ()) -> Value {
        Value::Null
    }
}

impl vstd::std_specs::convert::FromSpecImpl<()> for Value {
    open spec fn obeys_from_spec() -> bool {
        true
    }

    open spec fn from_spec(v: ()) -> Value {
        Value::Null
    }
}

/// A text slice becomes a string value. Its result is stated over the
/// value's view by `from` itself: a `String` made from a slice is known only
/// by its characters, so no spec-level value is claimed for it.
impl<'a> From<&'a str> for Value {
    fn from(value: &'a str) -> (r: Value)
        ensures
            r@ == ValueView::String(value@),
    {
        Value::String(String::from_str(value))
    }
}

impl<'a> vstd::std_specs::convert::FromSpecImpl<&'a str> for Value {
    open spec fn obeys_from_spec() -> bool {
        false
    }

    open spec fn from_spec(v: &'a str) -> Value {
        Value::Null
    }
}

/// A byte slice becomes a binary value. Its result is stated over the
/// value's view by `from` itself, as for a text slice.
impl<'a> From<&'a [u8]> for Value {
    fn from(value: &'a [u8]) -> (r: Value)
        ensures
            r@ == ValueView::Binary(value@),
    {
        Value::Binary(copy_bytes(value))
    }
}

impl<'a> vstd::std_specs::convert::FromSpecImpl<&'a [u8]> for Value {
    open spec fn obeys_from_spec() -> bool {
        false
    }

    open spec fn from_spec(v: &'a [u8]) -> Value {
        Value::Null
    }
}

/// `Some` becomes the value of what it holds, `None` becomes null. Its
/// result is stated over the value's view by `from` itself.
impl<T: BindableWithIndex> From<Option<T>> for Value {
    fn from(value: Option<T>) -> (r: Value)
        ensures
            r@ == value.bound(),
    {
        value.to_value()
    }
}

impl<T: BindableWithIndex> vstd::std_specs::convert::FromSpecImpl<Option<T>> for Value {
    open spec fn obeys_from_spec() -> bool {
        false
    }

    open spec fn from_spec(v: Option<T>) -> Value {
        Value::Null
    }
}

/// Binding a primitive host value and reading the value back as the same
/// type gives the host value again.
pub proof fn lemma_round_trip(i: i64, f: FloatBits, s: String, b: Vec<u8>, v: Value)
    ensures
        <i64 as ValueInto>::decode(i.bound()) == Some(i),
        <FloatBits as ValueInto>::decode(f.bound()) == Some(f.deep_view()),
        <String as ValueInto>::decode(s.bound()) == Some(s.deep_view()),
        <Vec<u8> as ValueInto>::decode(b.bound()) == Some(b.deep_view()),
        <Value as ValueInto>::decode(v.bound()) == Some(v.deep_view()),
{
    assert(b.deep_view() =~= b@);
}

/// Binding `None` and reading the value back as an `Option` gives `None`;
/// binding `Some` of a primitive host value and reading it back gives
/// `Some` of that host value.
pub proof fn lemma_null_symmetry(i: i64, f: FloatBits, s: String, b: Vec<u8>)
    ensures
        <Option<i64> as ValueInto>::decode(None::<i64>.bound()) == Some(None::<i64>),
        <Option<i64> as ValueInto>::decode(Some(i).bound()) == Some(Some(i)),
        <Option<FloatBits> as ValueInto>::decode(None::<FloatBits>.bound()) == Some(None::<u64>),
        <Option<FloatBits> as ValueInto>::decode(Some(f).bound()) == Some(Some(f.deep_view())),
        <Option<String> as ValueInto>::decode(None::<String>.bound()) == Some(None::<Seq<char>>),
        <Option<String> as ValueInto>::decode(Some(s).bound()) == Some(Some(s.deep_view())),
        <Option<Vec<u8>> as ValueInto>::decode(None::<Vec<u8>>.bound()) == Some(None::<Seq<u8>>),
        <Option<Vec<u8>> as ValueInto>::decode(Some(b).bound()) == Some(Some(b.deep_view())),
{
    assert(b.deep_view() =~= b@);
}

} // verus!
