//! Coarse places of client addresses, as a geographic database gives them.

use vstd::prelude::*;

verus! {

/// Where a visit came from, as far as it is recorded.
#[derive(Debug)]
pub struct GeoInfo {
    pub country: String,
    pub region: String,
    pub city: String,
}

/// The fields that a lookup in the geographic database gave for an address:
/// the long name of the country, the region and the city, each where the
/// database holds it.
#[derive(Debug)]
pub struct GeoRecord {
    pub country: Option<String>,
    pub region: Option<String>,
    pub city: Option<String>,
}

/// Why no place is known for an address.
#[derive(Debug, Clone, Copy, PartialEq, Eq, Structural)]
pub enum GeoError {
    /// The lookup of the address failed.
    LookupFailed,
}

/// The single dash that the database writes where it knows nothing.
pub open spec fn dash() -> Seq<char> {
    seq!['-']
}

/// A field of the database as it is recorded: nothing for a missing field and
/// for a single dash.
pub open spec fn recorded(field: Option<String>) -> Seq<char> {
    match field {
        Some(text) if text@ != dash() => text@,
        _ => Seq::<char>::empty(),
    }
}

/// Replaces the single dash, which the database writes for an unknown field,
/// by an empty string.
pub fn remove_dash(value: String) -> (cleaned: String)
    ensures
        cleaned@ == recorded(Some(value)),
        value@ != dash() ==> cleaned == value,
{
    let is_dash = value.as_str().unicode_len() == 1 && value.as_str().get_char(0) == '-';
    assert(is_dash <==> value@ =~= dash());
    if is_dash {
        String::new()
    } else {
        value
    }
}

fn field_or_empty(field: Option<String>) -> (text: String)
    ensures
        text@ == recorded(field),
{
    match field {
        Some(text) => remove_dash(text),
        None => String::new(),
    }
}

/// The place that a lookup gave: each field as recorded, or the error of a
/// lookup that failed.
pub fn geo_info(lookup: Option<GeoRecord>) -> (info: Result<GeoInfo, GeoError>)
    ensures
        match info {
            Ok(place) => {
                &&& lookup is Some
                &&& place.country@ == recorded(lookup->0.country)
                &&& place.region@ == recorded(lookup->0.region)
                &&& place.city@ == recorded(lookup->0.city)
            },
            Err(e) => lookup is None && e == GeoError::LookupFailed,
        },
{
    match lookup {
        Some(record) => Ok(
            GeoInfo {
                country: field_or_empty(record.country),
                region: field_or_empty(record.region),
                city: field_or_empty(record.city),
            },
        ),
        None => Err(GeoError::LookupFailed),
    }
}

} // verus!
