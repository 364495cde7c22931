//! The license record and the envelope it arrives in, both decoded from
//! parsed JSON.

use chrono::{DateTime, Utc};
use serde_json::Value;
use uuid::Uuid;
use vstd::prelude::*;

use crate::json::{json_member, json_of, json_text, json_tree, member, text, Json, JsonTree};

verus! {

/// An instant on the UTC time line: whole seconds since the Unix epoch and
/// the nanoseconds into that second.
#[derive(Debug, Clone, Copy, PartialEq, Eq, Structural)]
pub struct Timestamp {
    /// Whole seconds since 1970-01-01T00:00:00Z, negative before it.
    pub seconds: i64,
    /// Nanoseconds into the second.
    pub nanoseconds: u32,
}

/// What `Uuid::parse_str` makes of a string: the 128 bits of the identifier,
/// `None` where the string is no UUID.
pub uninterp spec fn uuid_of(chars: Seq<char>) -> Option<u128>;

/// What parsing a string as `DateTime<Utc>` gives: the instant it denotes,
/// `None` where the string is no RFC 3339 date and time.
pub uninterp spec fn instant_of(chars: Seq<char>) -> Option<Timestamp>;

/// `Uuid::parse_str`, with the identifier returned as its 128-bit number
/// (`Uuid::as_u128`).
#[verifier::external_body]
pub(crate) fn parse_uuid(chars: &str) -> (id: Option<u128>)
    ensures
        id == uuid_of(chars@),
{
    Uuid::parse_str(chars).ok().map(|u| u.as_u128())
}

/// `str::parse::<DateTime<Utc>>`, with the instant returned as
/// `DateTime::timestamp` and `DateTime::timestamp_subsec_nanos`.
#[verifier::external_body]
pub(crate) fn parse_instant(chars: &str) -> (at: Option<Timestamp>)
    ensures
        at == instant_of(chars@),
{
    chars.parse::<DateTime<Utc>>().ok().map(
        |t| Timestamp { seconds: t.timestamp(), nanoseconds: t.timestamp_subsec_nanos() },
    )
}

/// The protected payload: who the license is for, until when, and whatever
/// else the issuer attached.
#[derive(Debug)]
pub struct License {
    /// The identifier, a UUID as its 128-bit number.
    pub id: u128,
    /// The instant at which the license expires.
    pub expiration_date: Timestamp,
    /// Data of the issuer's choosing, opaque to verification.
    pub custom_data: Json,
}

/// A license as a mathematical value.
pub struct LicenseView {
    /// The identifier.
    pub id: u128,
    /// The instant at which the license expires.
    pub expiration_date: Timestamp,
    /// The custom data as a tree.
    pub custom_data: JsonTree,
}

impl View for License {
    type V = LicenseView;

    open spec fn view(&self) -> LicenseView {
        LicenseView {
            id: self.id,
            expiration_date: self.expiration_date,
            custom_data: self.custom_data@,
        }
    }
}

/// The license that a JSON tree describes: an object whose `id` is a UUID
/// string, whose `expirationDate` is a date-and-time string and which has a
/// `customData` member of any kind. Other members are ignored.
pub open spec fn license_of(tree: JsonTree) -> Option<LicenseView> {
    match (member(tree, "id"@), member(tree, "expirationDate"@), member(tree, "customData"@)) {
        (Some(id), Some(expiration), Some(data)) => match (text(id), text(expiration)) {
            (Some(id_chars), Some(expiration_chars)) => match (
                uuid_of(id_chars),
                instant_of(expiration_chars),
            ) {
                (Some(id), Some(at)) => Some(
                    LicenseView { id: id, expiration_date: at, custom_data: data },
                ),
                _ => None,
            },
            _ => None,
        },
        _ => None,
    }
}

impl License {
    /// Reads a license out of a parsed JSON value.
    pub fn decode(value: &Value) -> (license: Option<License>)
        ensures
            match license {
                Some(l) => license_of(json_of(*value)) == Some(l@),
                None => license_of(json_of(*value)) is None,
            },
    {
        let id_member = match json_member(value, "id") {
            Some(m) => m,
            None => { return None; },
        };
        let expiration_member = match json_member(value, "expirationDate") {
            Some(m) => m,
            None => { return None; },
        };
        let data_member = match json_member(value, "customData") {
            Some(m) => m,
            None => { return None; },
        };
        let id_chars = match json_text(id_member) {
            Some(s) => s,
            None => { return None; },
        };
        let expiration_chars = match json_text(expiration_member) {
            Some(s) => s,
            None => { return None; },
        };
        let id = match parse_uuid(id_chars) {
            Some(id) => id,
            None => { return None; },
        };
        let at = match parse_instant(expiration_chars) {
            Some(at) => at,
            None => { return None; },
        };
        Some(License { id: id, expiration_date: at, custom_data: json_tree(data_member) })
    }

    /// Structural equality: all three fields agree, the custom data as trees.
    pub fn same_as(&self, other: &License) -> (same: bool)
        ensures
            same == (self@ == other@),
    {
        self.id == other.id && self.expiration_date == other.expiration_date
            && self.custom_data.same_as(&other.custom_data)
    }
}

impl PartialEq for License {
    fn eq(&self, other: &License) -> (same: bool) {
        self.same_as(other)
    }
}

impl vstd::std_specs::cmp::PartialEqSpecImpl for License {
    open spec fn obeys_eq_spec() -> bool {
        true
    }

    open spec fn eq_spec(&self, other: &License) -> bool {
        self@ == other@
    }
}

impl Clone for License {
    fn clone(&self) -> (copy: License)
        ensures
            copy@ == self@,
    {
        License {
            id: self.id,
            expiration_date: self.expiration_date,
            custom_data: self.custom_data.clone(),
        }
    }
}

/// The envelope that a JSON tree describes: the license shown in clear and
/// the signature structure beside it.
pub open spec fn envelope_of(tree: JsonTree) -> Option<(LicenseView, JsonTree)> {
    match (member(tree, "license"@), member(tree, "licenseValidation"@)) {
        (Some(clear), Some(validation)) => match license_of(clear) {
            Some(license) => Some((license, validation)),
            None => None,
        },
        _ => None,
    }
}

/// An envelope as received: nothing in it is trusted yet.
pub struct VerifiableLicense<'a> {
    license: License,
    license_validation: &'a Value,
}

impl<'a> VerifiableLicense<'a> {
    /// The clear license and the tree of the signature structure.
    pub closed spec fn view(&self) -> (LicenseView, JsonTree) {
        (self.license@, json_of(*self.license_validation))
    }

    /// Reads an envelope out of a parsed JSON value.
    pub fn decode(value: &'a Value) -> (envelope: Option<VerifiableLicense<'a>>)
        ensures
            match envelope {
                Some(e) => envelope_of(json_of(*value)) == Some(e.view()),
                None => envelope_of(json_of(*value)) is None,
            },
    {
        let clear = match json_member(value, "license") {
            Some(m) => m,
            None => { return None; },
        };
        let validation = match json_member(value, "licenseValidation") {
            Some(m) => m,
            None => { return None; },
        };
        match License::decode(clear) {
            Some(license) => Some(VerifiableLicense { license: license, license_validation: validation }),
            None => None,
        }
    }

    /// The license as the envelope shows it in clear.
    pub fn license(&self) -> (license: &License)
        ensures
            license@ == self.view().0,
    {
        &self.license
    }

    /// The signature structure, as it was parsed.
    pub fn license_validation(&self) -> (validation: &'a Value)
        ensures
            json_of(*validation) == self.view().1,
    {
        self.license_validation
    }
}

} // verus!
