//! The animal record, its creation payload and its identifier.

use vstd::prelude::*;

verus! {

/// What `uuid::Uuid::parse_str` makes of a text: the 128 bits of the
/// identifier that the text spells, or `None` where it spells none.
pub uninterp spec fn uuid_parse(text: Seq<char>) -> Option<u128>;

/// The identifier of a row: the 128 bits of a UUID.
#[derive(Clone, Copy, Debug, PartialEq, Eq, Structural)]
pub struct AnimalId {
    pub value: u128,
}

/// A persisted row.
#[derive(Debug, PartialEq, Eq)]
pub struct Animal {
    pub id: AnimalId,
    pub name: String,
    pub weight: i32,
    pub diet: String,
}

/// What a client sends to create a row, or to replace the fields of one.
#[derive(Debug, PartialEq, Eq)]
pub struct AnimalCreateRequest {
    pub name: String,
    pub weight: i32,
    pub diet: String,
}

/// A request body as it was decoded, before any field is known to be there.
/// The weight is as wide as the wire format allows. A body may carry an
/// identifier; it is kept here as it came and never read: the store assigns
/// the identifier of a new row, and the path names the row of an update.
#[derive(Debug, PartialEq, Eq)]
pub struct PayloadFields {
    pub id: Option<String>,
    pub name: Option<String>,
    pub weight: Option<i64>,
    pub diet: Option<String>,
}

/// The mathematical value of a row.
pub struct AnimalView {
    pub id: u128,
    pub name: Seq<char>,
    pub weight: int,
    pub diet: Seq<char>,
}

/// The mathematical value of a payload.
pub struct PayloadView {
    pub name: Seq<char>,
    pub weight: int,
    pub diet: Seq<char>,
}

/// The row that a payload makes under an identifier.
pub open spec fn row_of(id: u128, payload: PayloadView) -> AnimalView {
    AnimalView { id, name: payload.name, weight: payload.weight, diet: payload.diet }
}

/// The views of a sequence of rows, in the same order.
pub open spec fn views_of(rows: Seq<Animal>) -> Seq<AnimalView> {
    Seq::new(rows.len(), |i: int| rows[i]@)
}

impl View for Animal {
    type V = AnimalView;

    open spec fn view(&self) -> AnimalView {
        AnimalView {
            id: self.id.value,
            name: self.name@,
            weight: self.weight as int,
            diet: self.diet@,
        }
    }
}

impl View for AnimalCreateRequest {
    type V = PayloadView;

    open spec fn view(&self) -> PayloadView {
        PayloadView { name: self.name@, weight: self.weight as int, diet: self.diet@ }
    }
}

impl Clone for Animal {
    fn clone(&self) -> (copy: Animal)
        ensures
            copy@ == self@,
    {
        Animal {
            id: self.id,
            name: self.name.clone(),
            weight: self.weight,
            diet: self.diet.clone(),
        }
    }
}

impl Clone for AnimalCreateRequest {
    fn clone(&self) -> (copy: AnimalCreateRequest)
        ensures
            copy@ == self@,
    {
        AnimalCreateRequest {
            name: self.name.clone(),
            weight: self.weight,
            diet: self.diet.clone(),
        }
    }
}

impl Animal {
    /// The row that `payload` makes under `id`.
    pub fn from_payload(id: AnimalId, payload: AnimalCreateRequest) -> (row: Animal)
        ensures
            row@ == row_of(id.value, payload@),
    {
        Animal { id, name: payload.name, weight: payload.weight, diet: payload.diet }
    }
}

/// Whether a decoded body holds a payload: name, weight and diet are there
/// and the weight fits in 32 signed bits.
pub open spec fn fields_complete(fields: PayloadFields) -> bool {
    &&& fields.name is Some
    &&& fields.diet is Some
    &&& fields.weight is Some
    &&& i32::MIN <= fields.weight->0 <= i32::MAX
}

/// The payload that a complete body holds.
pub open spec fn payload_of(fields: PayloadFields) -> PayloadView {
    PayloadView {
        name: fields.name->0@,
        weight: fields.weight->0 as int,
        diet: fields.diet->0@,
    }
}

impl PayloadFields {
    /// The payload in these fields, or `None` where a field is missing or
    /// the weight does not fit.
    pub fn into_payload(self) -> (payload: Option<AnimalCreateRequest>)
        ensures
            payload is Some <==> fields_complete(self),
            payload is Some ==> payload->0@ == payload_of(self),
    {
        match (self.name, self.weight, self.diet) {
            (Some(name), Some(wide), Some(diet)) => {
                if wide < -2147483648i64 || wide > 2147483647i64 {
                    None
                } else {
                    Some(AnimalCreateRequest { name, weight: narrow(wide), diet })
                }
            },
            _ => None,
        }
    }
}

/// The same number in 32 bits.
fn narrow(wide: i64) -> (small: i32)
    requires
        i32::MIN <= wide <= i32::MAX,
    ensures
        small == wide,
{
    wide as i32
}

impl AnimalId {
    /// Reads an identifier from its text, in any of the forms that the
    /// `uuid` crate reads; `None` where the text is no identifier.
    pub fn parse(text: &str) -> (id: Option<AnimalId>)
        ensures
            id is Some <==> uuid_parse(text@) is Some,
            id is Some ==> id->0.value == uuid_parse(text@)->0,
    {
        match parse_uuid_bits(text) {
            Some(value) => Some(AnimalId { value }),
            None => None,
        }
    }

    /// A new random identifier. Nothing is known of it but its type.
    pub fn fresh() -> AnimalId {
        AnimalId { value: random_uuid_bits() }
    }
}

/// Calls `uuid::Uuid::parse_str` and hands back the parsed identifier's 128
/// bits (`Uuid::as_u128`). Trusted: the result is `uuid_parse` of the text,
/// that is, parsing depends on the text alone and never panics.
#[verifier::external_body]
fn parse_uuid_bits(text: &str) -> (bits: Option<u128>)
    ensures
        bits == uuid_parse(text@),
{
    match uuid::Uuid::parse_str(text) {
        Ok(id) => Some(id.as_u128()),
        Err(_) => None,
    }
}

/// Calls `uuid::Uuid::new_v4` and hands back its 128 bits. The value is
/// random, so nothing is claimed of it.
#[verifier::external_body]
fn random_uuid_bits() -> u128 {
    uuid::Uuid::new_v4().as_u128()
}

} // verus!
