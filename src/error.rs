//! Errors of the dynamic bridges.
//!
//! A facade call returns only a payload-free status code: [`SerializerError`] on the producing
//! side, [`DeserializerError`] on the consuming side. The richer descriptions, [`Error`] and
//! [`DeserializeError`], are built only on the failure path.
use vstd::prelude::*;
use vstd::std_specs::convert::FromSpecImpl;
use vstd::string::StringExecFns;

verus! {

/// The status returned by a producing facade call that did not succeed.
///
/// It tells only that a failure was recorded, or which facade was not in the stage that the
/// call needs; never why.
#[derive(Clone, Copy, Debug, PartialEq, Eq, Structural)]
pub enum SerializerError {
    /// An error occurred during serialization.
    Error,
    /// The serializer is not ready.
    Serializer,
    /// The serializer is not ready to serialize the sequence.
    SerializeSeq,
    /// The serializer is not ready to serialize the tuple.
    SerializeTuple,
    /// The serializer is not ready to serialize the tuple struct.
    SerializeTupleStruct,
    /// The serializer is not ready to serialize the tuple variant.
    SerializeTupleVariant,
    /// The serializer is not ready to serialize the map.
    SerializeMap,
    /// The serializer is not ready to serialize the struct.
    SerializeStruct,
    /// The serializer is not ready to serialize the struct variant.
    SerializeStructVariant,
}

/// The result of a producing facade call.
pub type SerializerResult<T> = Result<T, SerializerError>;

/// The text that describes a producing status.
pub open spec fn serializer_error_text(e: SerializerError) -> Seq<char> {
    match e {
        SerializerError::Error => "an error occurred during the serialization"@,
        SerializerError::Serializer => "the serializer is not ready"@,
        SerializerError::SerializeSeq => "the serializer is not ready to serialize the sequence"@,
        SerializerError::SerializeTuple => "the serializer is not ready to serialize the tuple"@,
        SerializerError::SerializeTupleStruct =>
            "the serializer is not ready to serialize the tuple struct"@,
        SerializerError::SerializeTupleVariant =>
            "the serializer is not ready to serialize the tuple variant"@,
        SerializerError::SerializeMap => "the serializer is not ready to serialize the map"@,
        SerializerError::SerializeStruct => "the serializer is not ready to serialize the struct"@,
        SerializerError::SerializeStructVariant =>
            "the serializer is not ready to serialize the struct variant"@,
    }
}

impl Default for SerializerError {
    fn default() -> (r: Self)
        ensures
            r == SerializerError::Error,
    {
        SerializerError::Error
    }
}

impl SerializerError {
    /// The human-readable text of this status.
    pub fn message(&self) -> (r: &'static str)
        ensures
            r@ == serializer_error_text(*self),
    {
        match self {
            SerializerError::Error => "an error occurred during the serialization",
            SerializerError::Serializer => "the serializer is not ready",
            SerializerError::SerializeSeq => "the serializer is not ready to serialize the sequence",
            SerializerError::SerializeTuple => "the serializer is not ready to serialize the tuple",
            SerializerError::SerializeTupleStruct =>
                "the serializer is not ready to serialize the tuple struct",
            SerializerError::SerializeTupleVariant =>
                "the serializer is not ready to serialize the tuple variant",
            SerializerError::SerializeMap => "the serializer is not ready to serialize the map",
            SerializerError::SerializeStruct =>
                "the serializer is not ready to serialize the struct",
            SerializerError::SerializeStructVariant =>
                "the serializer is not ready to serialize the struct variant",
        }
    }
}


/// The status returned by a consuming facade call that did not succeed.
///
/// It tells only that a failure was recorded, or which facade was not in the stage that the
/// call needs; never why.
#[derive(Clone, Copy, Debug, PartialEq, Eq, Structural)]
pub enum DeserializerError {
    /// An error occurred during the deserialization.
    Error,
    /// The deserializer is not ready.
    Deserializer,
    /// The deserialize-seed is not ready.
    DeserializeSeed,
    /// The visitor is not ready.
    Visitor,
    /// The sequence access is not ready.
    SeqAccess,
    /// The map access is not ready.
    MapAccess,
    /// The enum access is not ready.
    EnumAccess,
    /// The enum variant access is not ready.
    VariantAccess,
}

/// The result of a consuming facade call.
pub type DeserializerResult<T> = Result<T, DeserializerError>;

/// The text that describes a consuming status.
pub open spec fn deserializer_error_text(e: DeserializerError) -> Seq<char> {
    match e {
        DeserializerError::Error => "an error occurred during the deserialization"@,
        DeserializerError::Deserializer => "the deserializer is not ready"@,
        DeserializerError::DeserializeSeed => "the deserialize-seed is not ready"@,
        DeserializerError::Visitor => "the visitor is not ready"@,
        DeserializerError::SeqAccess => "the sequence access is not ready"@,
        DeserializerError::MapAccess => "the map access is not ready"@,
        DeserializerError::EnumAccess => "the enum access is not ready"@,
        DeserializerError::VariantAccess => "the enum variant access is not ready"@,
    }
}

impl Default for DeserializerError {
    fn default() -> (r: Self)
        ensures
            r == DeserializerError::Error,
    {
        DeserializerError::Error
    }
}

impl DeserializerError {
    /// The human-readable text of this status.
    pub fn message(&self) -> (r: &'static str)
        ensures
            r@ == deserializer_error_text(*self),
    {
        match self {
            DeserializerError::Error => "an error occurred during the deserialization",
            DeserializerError::Deserializer => "the deserializer is not ready",
            DeserializerError::DeserializeSeed => "the deserialize-seed is not ready",
            DeserializerError::Visitor => "the visitor is not ready",
            DeserializerError::SeqAccess => "the sequence access is not ready",
            DeserializerError::MapAccess => "the map access is not ready",
            DeserializerError::EnumAccess => "the enum access is not ready",
            DeserializerError::VariantAccess => "the enum variant access is not ready",
        }
    }
}

/// The error that the consuming facades hand back to a generic caller.
///
/// Either the status of a facade that was not ready, or the message of an error that the
/// concrete codec reported.
#[derive(Debug)]
pub enum DeserializeError {
    /// A facade was not ready, or a failure was recorded in it.
    DeserializerError(DeserializerError),
    /// A message given by the codec.
    Other(String),
}

/// The result of a call that hands a decoded value back to a generic caller.
pub type DeserializeResult<T> = Result<T, DeserializeError>;

/// The text of a consuming error.
pub open spec fn deserialize_error_text(e: DeserializeError) -> Seq<char> {
    match e {
        DeserializeError::DeserializerError(status) => deserializer_error_text(status),
        DeserializeError::Other(msg) => msg@,
    }
}

impl DeserializeError {
    /// An error that carries a free-form message.
    pub fn custom(msg: String) -> (r: Self)
        ensures
            r == DeserializeError::Other(msg),
    {
        DeserializeError::Other(msg)
    }

    /// The human-readable text of this error.
    pub fn message(&self) -> (r: String)
        ensures
            r@ == deserialize_error_text(*self),
    {
        match self {
            DeserializeError::DeserializerError(status) => String::from_str(status.message()),
            DeserializeError::Other(msg) => msg.clone(),
        }
    }

    /// The status that this error propagates, if it is one.
    pub fn status(&self) -> (r: Option<DeserializerError>)
        ensures
            r == (match *self {
                DeserializeError::DeserializerError(status) => Some(status),
                DeserializeError::Other(_) => None,
            }),
    {
        match self {
            DeserializeError::DeserializerError(status) => Some(*status),
            DeserializeError::Other(_) => None,
        }
    }
}

impl From<DeserializerError> for DeserializeError {
    fn from(error: DeserializerError) -> (r: Self) {
        DeserializeError::DeserializerError(error)
    }
}

impl FromSpecImpl<DeserializerError> for DeserializeError {
    open spec fn obeys_from_spec() -> bool {
        true
    }

    open spec fn from_spec(error: DeserializerError) -> Self {
        DeserializeError::DeserializerError(error)
    }
}

// ---------------------------------------------------------------------------------------------
// Rendering integers and names as text.

/// The character of a decimal digit.
pub open spec fn digit_char(d: int) -> char {
    if d == 0 {
        '0'
    } else if d == 1 {
        '1'
    } else if d == 2 {
        '2'
    } else if d == 3 {
        '3'
    } else if d == 4 {
        '4'
    } else if d == 5 {
        '5'
    } else if d == 6 {
        '6'
    } else if d == 7 {
        '7'
    } else if d == 8 {
        '8'
    } else {
        '9'
    }
}

/// The decimal digits of `n`, most significant first, without leading zeros.
pub open spec fn decimal(n: nat) -> Seq<char>
    decreases n,
{
    if n < 10 {
        seq![digit_char(n as int)]
    } else {
        decimal(n / 10).push(digit_char((n % 10) as int))
    }
}

/// The decimal text of a signed integer, with a leading `-` when it is negative.
pub open spec fn signed_decimal(n: int) -> Seq<char> {
    if n < 0 {
        "-"@ + decimal((-n) as nat)
    } else {
        decimal(n as nat)
    }
}

/// A name between backticks.
pub open spec fn ticked(name: Seq<char>) -> Seq<char> {
    "`"@ + name + "`"@
}

/// Each name between backticks, each preceded by a comma and a space.
pub open spec fn comma_ticked(names: Seq<Seq<char>>) -> Seq<char>
    decreases names.len(),
{
    if names.len() == 0 {
        Seq::empty()
    } else {
        comma_ticked(names.drop_last()) + ", "@ + ticked(names.last())
    }
}

/// How serde lists the expected names of a field or a variant: "`a`", "`a` or `b`", or
/// "one of `a`, `b`, `c`".
pub open spec fn one_of(names: Seq<Seq<char>>) -> Seq<char> {
    if names.len() == 0 {
        Seq::empty()
    } else if names.len() == 1 {
        ticked(names[0])
    } else if names.len() == 2 {
        ticked(names[0]) + " or "@ + ticked(names[1])
    } else {
        "one of "@ + ticked(names[0]) + comma_ticked(names.drop_first())
    }
}

/// The texts of a list of static names.
pub open spec fn names_view(names: &[&str]) -> Seq<Seq<char>> {
    names@.map_values(|name: &str| name@)
}

/// Relies on `String::push`: appends one character.
#[verifier::external_body]
fn push_char(s: &mut String, c: char)
    ensures
        final(s)@ == old(s)@.push(c),
{
    s.push(c)
}

fn digit(d: u128) -> (c: char)
    requires
        d < 10,
    ensures
        c == digit_char(d as int),
{
    if d == 0 {
        '0'
    } else if d == 1 {
        '1'
    } else if d == 2 {
        '2'
    } else if d == 3 {
        '3'
    } else if d == 4 {
        '4'
    } else if d == 5 {
        '5'
    } else if d == 6 {
        '6'
    } else if d == 7 {
        '7'
    } else if d == 8 {
        '8'
    } else {
        '9'
    }
}

/// Appends the decimal digits of `n`.
pub fn push_decimal(s: &mut String, n: u128)
    ensures
        final(s)@ == old(s)@ + decimal(n as nat),
    decreases n,
{
    if n >= 10 {
        push_decimal(s, n / 10);
        push_char(s, digit(n % 10));
        assert(s@ =~= old(s)@ + decimal(n as nat));
    } else {
        push_char(s, digit(n));
        assert(s@ =~= old(s)@ + decimal(n as nat));
    }
}

/// Appends the decimal text of a signed integer.
pub fn push_signed_decimal(s: &mut String, n: i64)
    ensures
        final(s)@ == old(s)@ + signed_decimal(n as int),
{
    if n < 0 {
        s.append("-");
        let m: u128 = (0 - (n as i128)) as u128;
        push_decimal(s, m);
        assert(s@ =~= old(s)@ + signed_decimal(n as int));
    } else {
        push_decimal(s, n as u128);
    }
}

fn push_ticked(s: &mut String, name: &str)
    ensures
        final(s)@ == old(s)@ + ticked(name@),
{
    s.append("`");
    s.append(name);
    s.append("`");
    assert(s@ =~= old(s)@ + ticked(name@));
}

/// Appends the list of expected names in serde's wording.
pub fn push_one_of(s: &mut String, names: &[&str])
    ensures
        final(s)@ == old(s)@ + one_of(names_view(names)),
{
    let ghost v = names_view(names);
    let n = names.len();
    if n == 0 {
        assert(s@ =~= old(s)@ + one_of(v));
    } else if n == 1 {
        push_ticked(s, names[0]);
        assert(s@ =~= old(s)@ + one_of(v));
    } else if n == 2 {
        push_ticked(s, names[0]);
        s.append(" or ");
        push_ticked(s, names[1]);
        assert(s@ =~= old(s)@ + one_of(v));
    } else {
        s.append("one of ");
        push_ticked(s, names[0]);
        let ghost head = s@;
        assert(v.drop_first().subrange(0, 0) =~= Seq::<Seq<char>>::empty());
        let mut i: usize = 1;
        while i < n
            invariant
                1 <= i <= n,
                n == names@.len(),
                v == names_view(names),
                s@ == head + comma_ticked(v.drop_first().subrange(0, i - 1)),
            decreases n - i,
        {
            s.append(", ");
            push_ticked(s, names[i]);
            proof {
                let prev = v.drop_first().subrange(0, i - 1);
                let next = v.drop_first().subrange(0, i as int);
                assert(next.drop_last() =~= prev);
                assert(next.last() == names[i as int]@);
            }
            i = i + 1;
        }
        assert(v.drop_first().subrange(0, n - 1) =~= v.drop_first());
        assert(s@ =~= old(s)@ + one_of(v));
    }
}


// ---------------------------------------------------------------------------------------------
// Descriptive errors.

/// What the input held where something else was expected: an owned form of serde's
/// `Unexpected`.
#[derive(Debug)]
pub enum Unexpected {
    /// A boolean.
    Bool(bool),
    /// An unsigned integer.
    Unsigned(u64),
    /// A signed integer.
    Signed(i64),
    /// A floating-point number, held as the text that the codec rendered for it.
    Float(String),
    /// A character.
    Char(char),
    /// A string.
    Str(String),
    /// A byte array.
    Bytes(Vec<u8>),
    /// A unit value.
    Unit,
    /// An optional value.
    Optional,
    /// A newtype struct.
    NewtypeStruct,
    /// A sequence.
    Sequence,
    /// A map.
    Mapping,
    /// An enum.
    Enum,
    /// A unit variant.
    UnitVariant,
    /// A newtype variant.
    NewtypeVariant,
    /// A tuple variant.
    TupleVariant,
    /// A struct variant.
    StructVariant,
    /// Something else, described by the text.
    Other(String),
}

/// The quoted and escaped form that `{:?}` gives a string.
pub uninterp spec fn debug_quoted(s: Seq<char>) -> Seq<char>;

/// Relies on `<str as Debug>::fmt`: the string between double quotes, with its special
/// characters escaped; the result depends on the characters alone.
#[verifier::external_body]
fn quote_debug(s: &str) -> (r: String)
    ensures
        r@ == debug_quoted(s@),
{
    format!("{:?}", s)
}

/// How serde describes what the input held, where `quoted` stands for the quoted form of a
/// string.
pub open spec fn unexpected_text_with(u: Unexpected, quoted: Seq<char>) -> Seq<char> {
    match u {
        Unexpected::Bool(b) => "boolean `"@ + (if b {
            "true"@
        } else {
            "false"@
        }) + "`"@,
        Unexpected::Unsigned(n) => "integer `"@ + decimal(n as nat) + "`"@,
        Unexpected::Signed(n) => "integer `"@ + signed_decimal(n as int) + "`"@,
        Unexpected::Float(text) => "floating point `"@ + text@ + "`"@,
        Unexpected::Char(c) => "character `"@ + seq![c] + "`"@,
        Unexpected::Str(_) => "string "@ + quoted,
        Unexpected::Bytes(_) => "byte array"@,
        Unexpected::Unit => "unit value"@,
        Unexpected::Optional => "Option value"@,
        Unexpected::NewtypeStruct => "newtype struct"@,
        Unexpected::Sequence => "sequence"@,
        Unexpected::Mapping => "map"@,
        Unexpected::Enum => "enum"@,
        Unexpected::UnitVariant => "unit variant"@,
        Unexpected::NewtypeVariant => "newtype variant"@,
        Unexpected::TupleVariant => "tuple variant"@,
        Unexpected::StructVariant => "struct variant"@,
        Unexpected::Other(text) => text@,
    }
}

/// How serde describes what the input held.
pub open spec fn unexpected_text(u: Unexpected) -> Seq<char> {
    match u {
        Unexpected::Str(s) => unexpected_text_with(u, debug_quoted(s@)),
        _ => unexpected_text_with(u, Seq::empty()),
    }
}

impl Unexpected {
    /// Appends the description of what the input held, with `quoted` as the quoted form of a
    /// string.
    pub fn push_description_with(&self, s: &mut String, quoted: &str)
        ensures
            final(s)@ == old(s)@ + unexpected_text_with(*self, quoted@),
    {
        match self {
            Unexpected::Bool(b) => {
                s.append("boolean `");
                if *b {
                    s.append("true");
                } else {
                    s.append("false");
                }
                s.append("`");
            },
            Unexpected::Unsigned(n) => {
                s.append("integer `");
                push_decimal(s, *n as u128);
                s.append("`");
            },
            Unexpected::Signed(n) => {
                s.append("integer `");
                push_signed_decimal(s, *n);
                s.append("`");
            },
            Unexpected::Float(text) => {
                s.append("floating point `");
                s.append(text.as_str());
                s.append("`");
            },
            Unexpected::Char(c) => {
                s.append("character `");
                push_char(s, *c);
                s.append("`");
            },
            Unexpected::Str(_) => {
                s.append("string ");
                s.append(quoted);
            },
            Unexpected::Bytes(_) => s.append("byte array"),
            Unexpected::Unit => s.append("unit value"),
            Unexpected::Optional => s.append("Option value"),
            Unexpected::NewtypeStruct => s.append("newtype struct"),
            Unexpected::Sequence => s.append("sequence"),
            Unexpected::Mapping => s.append("map"),
            Unexpected::Enum => s.append("enum"),
            Unexpected::UnitVariant => s.append("unit variant"),
            Unexpected::NewtypeVariant => s.append("newtype variant"),
            Unexpected::TupleVariant => s.append("tuple variant"),
            Unexpected::StructVariant => s.append("struct variant"),
            Unexpected::Other(text) => s.append(text.as_str()),
        }
        assert(s@ =~= old(s)@ + unexpected_text_with(*self, quoted@));
    }

    /// Appends the description of what the input held.
    pub fn push_description(&self, s: &mut String)
        ensures
            final(s)@ == old(s)@ + unexpected_text(*self),
    {
        match self {
            Unexpected::Str(v) => {
                let quoted = quote_debug(v.as_str());
                self.push_description_with(s, quoted.as_str());
            },
            _ => self.push_description_with(s, ""),
        }
    }

    /// The description of what the input held.
    pub fn description(&self) -> (r: String)
        ensures
            r@ == unexpected_text(*self),
    {
        let mut s = String::new();
        self.push_description(&mut s);
        assert(s@ =~= unexpected_text(*self));
        s
    }
}

/// What went wrong, with the data that describes it.
#[derive(Debug)]
pub enum ErrorKind {
    /// A producing facade was not ready, or a failure was recorded in it.
    SerializerError(SerializerError),
    /// A consuming facade was not ready, or a failure was recorded in it.
    DeserializerError(DeserializerError),
    /// The input held a value of the wrong type: what it held, and the text of what was
    /// expected.
    InvalidType(Unexpected, String),
    /// The input held a value of the right type but a wrong value.
    InvalidValue(Unexpected, String),
    /// A sequence or a map had the wrong number of elements: how many it had, and the text of
    /// what was expected.
    InvalidLength(usize, String),
    /// An enum variant of an unknown name, and the names of the variants.
    UnknownVariant(String, &'static [&'static str]),
    /// A field of an unknown name, and the names of the fields.
    UnknownField(String, &'static [&'static str]),
    /// A field that the input lacked.
    MissingField(&'static str),
    /// A field that the input held more than once.
    DuplicateField(&'static str),
    /// A free-form message.
    Other(String),
}

/// The text that serde's `unknown_field` gives.
pub open spec fn unknown_field_text(field: Seq<char>, names: Seq<Seq<char>>) -> Seq<char> {
    if names.len() == 0 {
        "unknown field `"@ + field + "`, there are no fields"@
    } else {
        "unknown field `"@ + field + "`, expected "@ + one_of(names)
    }
}

/// The text that serde's `unknown_variant` gives.
pub open spec fn unknown_variant_text(variant: Seq<char>, names: Seq<Seq<char>>) -> Seq<char> {
    if names.len() == 0 {
        "unknown variant `"@ + variant + "`, there are no variants"@
    } else {
        "unknown variant `"@ + variant + "`, expected "@ + one_of(names)
    }
}

/// The text of an error: for each kind, the wording of serde's own constructor of that kind.
pub open spec fn error_kind_text(kind: ErrorKind) -> Seq<char> {
    match kind {
        ErrorKind::SerializerError(e) => serializer_error_text(e),
        ErrorKind::DeserializerError(e) => deserializer_error_text(e),
        ErrorKind::InvalidType(unexp, exp) => "invalid type: "@ + unexpected_text(unexp)
            + ", expected "@ + exp@,
        ErrorKind::InvalidValue(unexp, exp) => "invalid value: "@ + unexpected_text(unexp)
            + ", expected "@ + exp@,
        ErrorKind::InvalidLength(len, exp) => "invalid length "@ + decimal(len as nat)
            + ", expected "@ + exp@,
        ErrorKind::UnknownVariant(variant, names) => unknown_variant_text(
            variant@,
            names_view(names),
        ),
        ErrorKind::UnknownField(field, names) => unknown_field_text(field@, names_view(names)),
        ErrorKind::MissingField(field) => "missing field `"@ + field@ + "`"@,
        ErrorKind::DuplicateField(field) => "duplicate field `"@ + field@ + "`"@,
        ErrorKind::Other(msg) => msg@,
    }
}

/// The descriptive error of both facade families.
///
/// It is recovered once from a bridge that failed, and can stand for the error of any
/// producing or consuming codec.
#[derive(Debug)]
pub struct Error {
    /// What went wrong.
    pub kind: ErrorKind,
}

impl Error {
    /// A free-form message.
    pub fn custom(msg: String) -> (r: Self)
        ensures
            r.kind == ErrorKind::Other(msg),
    {
        Error { kind: ErrorKind::Other(msg) }
    }

    /// The input held a value of the wrong type.
    pub fn invalid_type(unexp: Unexpected, exp: String) -> (r: Self)
        ensures
            r.kind == ErrorKind::InvalidType(unexp, exp),
    {
        Error { kind: ErrorKind::InvalidType(unexp, exp) }
    }

    /// The input held a wrong value.
    pub fn invalid_value(unexp: Unexpected, exp: String) -> (r: Self)
        ensures
            r.kind == ErrorKind::InvalidValue(unexp, exp),
    {
        Error { kind: ErrorKind::InvalidValue(unexp, exp) }
    }

    /// A sequence or a map had the wrong number of elements.
    pub fn invalid_length(len: usize, exp: String) -> (r: Self)
        ensures
            r.kind == ErrorKind::InvalidLength(len, exp),
    {
        Error { kind: ErrorKind::InvalidLength(len, exp) }
    }

    /// An enum variant of an unknown name.
    pub fn unknown_variant(variant: String, expected: &'static [&'static str]) -> (r: Self)
        ensures
            r.kind == ErrorKind::UnknownVariant(variant, expected),
    {
        Error { kind: ErrorKind::UnknownVariant(variant, expected) }
    }

    /// A field of an unknown name.
    pub fn unknown_field(field: String, expected: &'static [&'static str]) -> (r: Self)
        ensures
            r.kind == ErrorKind::UnknownField(field, expected),
    {
        Error { kind: ErrorKind::UnknownField(field, expected) }
    }

    /// A field that the input lacked.
    pub fn missing_field(field: &'static str) -> (r: Self)
        ensures
            r.kind == ErrorKind::MissingField(field),
    {
        Error { kind: ErrorKind::MissingField(field) }
    }

    /// A field that the input held more than once.
    pub fn duplicate_field(field: &'static str) -> (r: Self)
        ensures
            r.kind == ErrorKind::DuplicateField(field),
    {
        Error { kind: ErrorKind::DuplicateField(field) }
    }

    /// The human-readable text of this error.
    pub fn message(&self) -> (r: String)
        ensures
            r@ == error_kind_text(self.kind),
    {
        let mut s = String::new();
        match &self.kind {
            ErrorKind::SerializerError(e) => s.append(e.message()),
            ErrorKind::DeserializerError(e) => s.append(e.message()),
            ErrorKind::InvalidType(unexp, exp) => {
                s.append("invalid type: ");
                unexp.push_description(&mut s);
                s.append(", expected ");
                s.append(exp.as_str());
            },
            ErrorKind::InvalidValue(unexp, exp) => {
                s.append("invalid value: ");
                unexp.push_description(&mut s);
                s.append(", expected ");
                s.append(exp.as_str());
            },
            ErrorKind::InvalidLength(len, exp) => {
                s.append("invalid length ");
                push_decimal(&mut s, *len as u128);
                s.append(", expected ");
                s.append(exp.as_str());
            },
            ErrorKind::UnknownVariant(variant, names) => {
                s.append("unknown variant `");
                s.append(variant.as_str());
                if names.len() == 0 {
                    s.append("`, there are no variants");
                } else {
                    s.append("`, expected ");
                    push_one_of(&mut s, names);
                }
            },
            ErrorKind::UnknownField(field, names) => {
                s.append("unknown field `");
                s.append(field.as_str());
                if names.len() == 0 {
                    s.append("`, there are no fields");
                } else {
                    s.append("`, expected ");
                    push_one_of(&mut s, names);
                }
            },
            ErrorKind::MissingField(field) => {
                s.append("missing field `");
                s.append(field);
                s.append("`");
            },
            ErrorKind::DuplicateField(field) => {
                s.append("duplicate field `");
                s.append(field);
                s.append("`");
            },
            ErrorKind::Other(msg) => s.append(msg.as_str()),
        }
        assert(s@ =~= error_kind_text(self.kind));
        s
    }

    /// The producing status that this error propagates, if it is one.
    pub fn serializer_status(&self) -> (r: Option<SerializerError>)
        ensures
            r == (match self.kind {
                ErrorKind::SerializerError(e) => Some(e),
                _ => None,
            }),
    {
        match &self.kind {
            ErrorKind::SerializerError(e) => Some(*e),
            _ => None,
        }
    }

    /// The consuming status that this error propagates, if it is one.
    pub fn deserializer_status(&self) -> (r: Option<DeserializerError>)
        ensures
            r == (match self.kind {
                ErrorKind::DeserializerError(e) => Some(e),
                _ => None,
            }),
    {
        match &self.kind {
            ErrorKind::DeserializerError(e) => Some(*e),
            _ => None,
        }
    }
}

impl From<SerializerError> for Error {
    fn from(error: SerializerError) -> (r: Self) {
        Error { kind: ErrorKind::SerializerError(error) }
    }
}

impl FromSpecImpl<SerializerError> for Error {
    open spec fn obeys_from_spec() -> bool {
        true
    }

    open spec fn from_spec(error: SerializerError) -> Self {
        Error { kind: ErrorKind::SerializerError(error) }
    }
}

impl From<DeserializerError> for Error {
    fn from(error: DeserializerError) -> (r: Self) {
        Error { kind: ErrorKind::DeserializerError(error) }
    }
}

impl FromSpecImpl<DeserializerError> for Error {
    open spec fn obeys_from_spec() -> bool {
        true
    }

    open spec fn from_spec(error: DeserializerError) -> Self {
        Error { kind: ErrorKind::DeserializerError(error) }
    }
}

} // verus!
