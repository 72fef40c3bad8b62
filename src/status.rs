use vstd::prelude::*;

verus! {

#[verifier::external_type_specification]
#[verifier::external_body]
pub struct ExJsonValue(serde_json::Value);

#[verifier::external_type_specification]
#[verifier::external_body]
pub struct ExJsonError(serde_json::Error);

/// Whether serde_json accepts `b` as one JSON document.
pub uninterp spec fn json_parses(b: Seq<u8>) -> bool;

/// The string that serde_json finds under `key` in the top-level object of
/// the document `b`; `None` when there is no such member or it is not a string.
pub uninterp spec fn json_text_member(b: Seq<u8>, key: Seq<char>) -> Option<Seq<char>>;

/// The non-negative integer that serde_json finds under `key` in the
/// top-level object of the document `b`; `None` when there is no such member
/// or it is not an integer that fits in a `u64`.
pub uninterp spec fn json_uint_member(b: Seq<u8>, key: Seq<char>) -> Option<u64>;

/// A parsed JSON document, with the bytes it was parsed from.
struct Document {
    value: serde_json::Value,
    source: Ghost<Seq<u8>>,
}

/// Relies on `serde_json::from_slice` into a `serde_json::Value`, which fails
/// on bytes that are not one JSON document, including strings that are not
/// valid UTF-8.
#[verifier::external_body]
fn parse_document(b: &[u8]) -> (r: Result<Document, serde_json::Error>)
    ensures
        r is Ok <==> json_parses(b@),
        r matches Ok(d) ==> d.source@ == b@,
{
    let value = serde_json::from_slice::<serde_json::Value>(b)?;
    Ok(Document { value, source: Ghost(b@) })
}

/// Relies on `serde_json::Value::get` and `serde_json::Value::as_str`: the
/// string member `key` of the document's top-level object.
#[verifier::external_body]
fn text_member(d: &Document, key: &str) -> (r: Option<String>)
    ensures
        json_text_member(d.source@, key@) == (match r {
            Some(s) => Some(s@),
            None => None::<Seq<char>>,
        }),
{
    d.value.get(key).and_then(serde_json::Value::as_str).map(str::to_string)
}

/// Relies on `serde_json::Value::get` and `serde_json::Value::as_u64`: the
/// unsigned integer member `key` of the document's top-level object.
#[verifier::external_body]
fn uint_member(d: &Document, key: &str) -> (r: Option<u64>)
    ensures
        r == json_uint_member(d.source@, key@),
{
    d.value.get(key).and_then(serde_json::Value::as_u64)
}

/// The members of a status record.
#[derive(Clone, Copy, Debug, PartialEq, Eq, Structural)]
pub enum StatusField {
    Name,
    Location,
    Temperature,
    High,
    Low,
    Humidity,
}

pub open spec fn field_key(f: StatusField) -> Seq<char> {
    match f {
        StatusField::Name => "name"@,
        StatusField::Location => "location"@,
        StatusField::Temperature => "temperature"@,
        StatusField::High => "high"@,
        StatusField::Low => "low"@,
        StatusField::Humidity => "humidity"@,
    }
}

impl StatusField {
    /// The member name of this field in the wire format.
    pub fn key(&self) -> (r: &'static str)
        ensures
            r@ == field_key(*self),
    {
        match self {
            StatusField::Name => "name",
            StatusField::Location => "location",
            StatusField::Temperature => "temperature",
            StatusField::High => "high",
            StatusField::Low => "low",
            StatusField::Humidity => "humidity",
        }
    }
}

/// Why a payload is not a status record.
#[derive(Clone, Copy, Debug, PartialEq, Eq, Structural)]
pub enum DecodeError {
    /// The payload is not one JSON document.
    Malformed,
    /// The field is missing, or is not of its type.
    BadField(StatusField),
    /// The field is an integer above 255.
    OutOfRange(StatusField),
}

/// A sensor's status, as published on the bus.
#[derive(Clone, Debug)]
pub struct SensorStatus {
    pub name: String,
    pub location: String,
    pub temperature: u8,
    pub high: u8,
    pub low: u8,
    pub humidity: u8,
}

/// The mathematical value of a [`SensorStatus`].
pub struct StatusRecord {
    pub name: Seq<char>,
    pub location: Seq<char>,
    pub temperature: u8,
    pub high: u8,
    pub low: u8,
    pub humidity: u8,
}

impl View for SensorStatus {
    type V = StatusRecord;

    open spec fn view(&self) -> StatusRecord {
        StatusRecord {
            name: self.name@,
            location: self.location@,
            temperature: self.temperature,
            high: self.high,
            low: self.low,
            humidity: self.humidity,
        }
    }
}

/// The text field `f` of the document `b`.
pub open spec fn text_field(b: Seq<u8>, f: StatusField) -> Result<Seq<char>, DecodeError> {
    match json_text_member(b, field_key(f)) {
        Some(s) => Ok(s),
        None => Err(DecodeError::BadField(f)),
    }
}

/// The integer field `f` of the document `b`, which must lie in 0..=255.
pub open spec fn byte_field(b: Seq<u8>, f: StatusField) -> Result<u8, DecodeError> {
    match json_uint_member(b, field_key(f)) {
        Some(n) => if n <= 255 {
            Ok(n as u8)
        } else {
            Err(DecodeError::OutOfRange(f))
        },
        None => Err(DecodeError::BadField(f)),
    }
}

/// The record that the payload `b` holds, or the error for the first field,
/// in the record's order, that is missing, mistyped or out of range.
/// Members that are not fields of the record are ignored.
pub open spec fn decode_spec(b: Seq<u8>) -> Result<StatusRecord, DecodeError> {
    if !json_parses(b) {
        Err(DecodeError::Malformed)
    } else if text_field(b, StatusField::Name) is Err {
        Err(text_field(b, StatusField::Name)->Err_0)
    } else if text_field(b, StatusField::Location) is Err {
        Err(text_field(b, StatusField::Location)->Err_0)
    } else if byte_field(b, StatusField::Temperature) is Err {
        Err(byte_field(b, StatusField::Temperature)->Err_0)
    } else if byte_field(b, StatusField::High) is Err {
        Err(byte_field(b, StatusField::High)->Err_0)
    } else if byte_field(b, StatusField::Low) is Err {
        Err(byte_field(b, StatusField::Low)->Err_0)
    } else if byte_field(b, StatusField::Humidity) is Err {
        Err(byte_field(b, StatusField::Humidity)->Err_0)
    } else {
        Ok(
            StatusRecord {
                name: text_field(b, StatusField::Name)->Ok_0,
                location: text_field(b, StatusField::Location)->Ok_0,
                temperature: byte_field(b, StatusField::Temperature)->Ok_0,
                high: byte_field(b, StatusField::High)->Ok_0,
                low: byte_field(b, StatusField::Low)->Ok_0,
                humidity: byte_field(b, StatusField::Humidity)->Ok_0,
            },
        )
    }
}

fn read_text(d: &Document, f: StatusField) -> (r: Result<String, DecodeError>)
    ensures
        match r {
            Ok(s) => text_field(d.source@, f) == Ok::<Seq<char>, DecodeError>(s@),
            Err(e) => text_field(d.source@, f) == Err::<Seq<char>, DecodeError>(e),
        },
{
    match text_member(d, f.key()) {
        Some(s) => Ok(s),
        None => Err(DecodeError::BadField(f)),
    }
}

fn read_byte(d: &Document, f: StatusField) -> (r: Result<u8, DecodeError>)
    ensures
        r == byte_field(d.source@, f),
{
    match uint_member(d, f.key()) {
        Some(n) => if n <= 255 {
            Ok(n as u8)
        } else {
            Err(DecodeError::OutOfRange(f))
        },
        None => Err(DecodeError::BadField(f)),
    }
}

/// Decodes a status payload: a JSON object with the string members `name`
/// and `location` and the integer members `temperature`, `high`, `low` and
/// `humidity`, each in 0..=255.
pub fn decode(raw: &[u8]) -> (r: Result<SensorStatus, DecodeError>)
    ensures
        match r {
            Ok(s) => decode_spec(raw@) == Ok::<StatusRecord, DecodeError>(s@),
            Err(e) => decode_spec(raw@) == Err::<StatusRecord, DecodeError>(e),
        },
{
    let d = match parse_document(raw) {
        Ok(d) => d,
        Err(_) => return Err(DecodeError::Malformed),
    };
    let name = match read_text(&d, StatusField::Name) {
        Ok(v) => v,
        Err(e) => return Err(e),
    };
    let location = match read_text(&d, StatusField::Location) {
        Ok(v) => v,
        Err(e) => return Err(e),
    };
    let temperature = match read_byte(&d, StatusField::Temperature) {
        Ok(v) => v,
        Err(e) => return Err(e),
    };
    let high = match read_byte(&d, StatusField::High) {
        Ok(v) => v,
        Err(e) => return Err(e),
    };
    let low = match read_byte(&d, StatusField::Low) {
        Ok(v) => v,
        Err(e) => return Err(e),
    };
    let humidity = match read_byte(&d, StatusField::Humidity) {
        Ok(v) => v,
        Err(e) => return Err(e),
    };
    Ok(SensorStatus { name, location, temperature, high, low, humidity })
}


/// A payload whose six members read back as the fields of `rec`, with the
/// integers in range, decodes to exactly `rec`, whatever other members it has.
pub proof fn lemma_decode_reads_record(b: Seq<u8>, rec: StatusRecord)
    requires
        json_parses(b),
        json_text_member(b, "name"@) == Some(rec.name),
        json_text_member(b, "location"@) == Some(rec.location),
        json_uint_member(b, "temperature"@) == Some(rec.temperature as u64),
        json_uint_member(b, "high"@) == Some(rec.high as u64),
        json_uint_member(b, "low"@) == Some(rec.low as u64),
        json_uint_member(b, "humidity"@) == Some(rec.humidity as u64),
    ensures
        decode_spec(b) == Ok::<StatusRecord, DecodeError>(rec),
{
}

/// A payload without a readable text member `name` or `location` is refused.
pub proof fn lemma_missing_text_refused(b: Seq<u8>, f: StatusField)
    requires
        f == StatusField::Name || f == StatusField::Location,
        json_text_member(b, field_key(f)) is None,
    ensures
        decode_spec(b) is Err,
{
}

/// A payload without a readable integer member for one of the four
/// measurements is refused.
pub proof fn lemma_missing_measure_refused(b: Seq<u8>, f: StatusField)
    requires
        !(f == StatusField::Name || f == StatusField::Location),
        json_uint_member(b, field_key(f)) is None,
    ensures
        decode_spec(b) is Err,
{
}

/// A payload with a measurement above 255 is refused rather than truncated.
pub proof fn lemma_out_of_range_refused(b: Seq<u8>, f: StatusField, n: u64)
    requires
        !(f == StatusField::Name || f == StatusField::Location),
        json_uint_member(b, field_key(f)) == Some(n),
        n > 255,
    ensures
        decode_spec(b) is Err,
{
}

} // verus!
