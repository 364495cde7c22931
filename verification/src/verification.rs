//! The verifier: built once from a public key descriptor, then asked about
//! any number of envelopes.

use rsa::RsaPublicKey;
use serde_json::Value;
use vstd::prelude::*;
use vstd::string::*;
use vstd::utf8::encode_utf8;

use crate::jose::{
    flattened_jws_of, jwk_modulus, jwk_of, jwk_rsa_material, jwk_supports_rs512,
    parse_flattened_jws, parse_jwk, rs512_accepts, rs512_verify, rsa_material, supports_rs512,
    FlattenedJws, RsaMaterial,
};
use crate::json::{
    json_from_bytes, json_member, json_of, json_text, member, parse_json, text, JsonTree,
};
use crate::license::{envelope_of, license_of, License, LicenseView, VerifiableLicense};

verus! {

/// Why an envelope was not accepted.
#[derive(Debug, Clone, Copy, PartialEq, Eq, Structural)]
pub enum LicenseVerificationError {
    /// The envelope does not have the expected shape.
    InvalidVerifiableLicense,
    /// The license shown in clear is not the license that was signed.
    TamperedLicense,
    /// The signature does not validate under the verifier's key.
    VerificationFailure,
}

/// Why a verifier could not be built from a key descriptor.
#[derive(Debug, Clone, Copy, PartialEq, Eq, Structural)]
pub enum LicenseVerifierError {
    /// The descriptor is no JSON Web Key.
    KeyIsNotJwk,
    /// The key is no RSA key usable with RS512.
    KeyTypeNotSupported,
}

/// What building a verifier from a key descriptor comes to: the public key it
/// is bound to, or the reason for refusing the descriptor.
pub open spec fn construction(descriptor: JsonTree) -> Result<RsaPublicKey, LicenseVerifierError> {
    match jwk_of(descriptor) {
        None => Err(LicenseVerifierError::KeyIsNotJwk),
        Some(jwk) => if !jwk_supports_rs512(jwk) {
            Err(LicenseVerifierError::KeyTypeNotSupported)
        } else {
            match jwk_rsa_material(jwk) {
                RsaMaterial::Usable(key) => Ok(key),
                _ => Err(LicenseVerifierError::KeyTypeNotSupported),
            }
        },
    }
}

/// The two encoded segments that were signed, protected header and payload,
/// taken from a signature structure that also has a `signature` string.
pub open spec fn segments_of(validation: JsonTree) -> Option<(Seq<char>, Seq<char>)> {
    match (
        member(validation, "protected"@),
        member(validation, "payload"@),
        member(validation, "signature"@),
    ) {
        (Some(protected), Some(payload), Some(signature)) => match (
            text(protected),
            text(payload),
            text(signature),
        ) {
            (Some(protected_chars), Some(payload_chars), Some(_)) => Some(
                (protected_chars, payload_chars),
            ),
            _ => None,
        },
        _ => None,
    }
}

/// The text that the issuer signed: both segments as they stand, joined by
/// one dot.
pub open spec fn signing_input(protected: Seq<char>, payload: Seq<char>) -> Seq<char> {
    protected + seq!['.'] + payload
}

/// The license that a decoded payload holds: the payload read as JSON, the
/// JSON read as a license. `None` where the signature structure had no
/// payload or either step fails.
pub open spec fn license_in(payload: Option<Seq<u8>>) -> Option<LicenseView> {
    match payload {
        Some(bytes) => match json_from_bytes(bytes) {
            Some(tree) => license_of(tree),
            None => None,
        },
        None => None,
    }
}

/// The license that the payload of a signature structure decodes to,
/// together with the signature bytes.
pub open spec fn signed_license_of(validation: JsonTree) -> Option<(LicenseView, Seq<u8>)> {
    match flattened_jws_of(validation) {
        Some(jws) => match license_in(jws.payload) {
            Some(license) => Some((license, jws.signature)),
            None => None,
        },
        None => None,
    }
}

/// The decision on decoded parts: a clear license that differs from the
/// signed one is tampering, whatever the signature; after that the signature
/// decides.
pub open spec fn settle(
    key: RsaPublicKey,
    clear: LicenseView,
    signed: LicenseView,
    message: Seq<u8>,
    signature: Seq<u8>,
) -> Result<LicenseView, LicenseVerificationError> {
    if signed != clear {
        Err(LicenseVerificationError::TamperedLicense)
    } else if !rs512_accepts(key, message, signature) {
        Err(LicenseVerificationError::VerificationFailure)
    } else {
        Ok(signed)
    }
}

/// What a well-formed envelope decodes to.
pub struct EnvelopeParts {
    /// The license shown in clear.
    pub clear: LicenseView,
    /// The license recovered from the signed payload.
    pub signed: LicenseView,
    /// The bytes that were signed.
    pub message: Seq<u8>,
    /// The signature over them.
    pub signature: Seq<u8>,
}

/// The parts of an envelope, `None` where it does not have the expected
/// shape: a `license` that decodes, a `licenseValidation` with its three
/// strings that parses as a flattened signature, and a payload in it that
/// decodes to a license.
pub open spec fn parts_of(envelope: JsonTree) -> Option<EnvelopeParts> {
    match envelope_of(envelope) {
        None => None,
        Some((clear, validation)) => match segments_of(validation) {
            None => None,
            Some((protected, payload)) => match signed_license_of(validation) {
                None => None,
                Some((signed, signature)) => Some(
                    EnvelopeParts {
                        clear: clear,
                        signed: signed,
                        message: encode_utf8(signing_input(protected, payload)),
                        signature: signature,
                    },
                ),
            },
        },
    }
}

/// The verdict on an envelope under a key: shape first, then consistency of
/// the clear license with the signed one, then the signature.
pub open spec fn verdict(key: RsaPublicKey, envelope: JsonTree) -> Result<
    LicenseView,
    LicenseVerificationError,
> {
    match parts_of(envelope) {
        None => Err(LicenseVerificationError::InvalidVerifiableLicense),
        Some(parts) => settle(key, parts.clear, parts.signed, parts.message, parts.signature),
    }
}

/// Whether an outcome is the one that a verdict names.
pub open spec fn agrees(
    outcome: Result<License, LicenseVerificationError>,
    expected: Result<LicenseView, LicenseVerificationError>,
) -> bool {
    match outcome {
        Ok(license) => expected == Ok::<LicenseView, LicenseVerificationError>(license@),
        Err(error) => expected == Err::<LicenseView, LicenseVerificationError>(error),
    }
}

/// Joins the two encoded segments into the text that was signed.
pub fn join_segments(protected: &str, payload: &str) -> (joined: String)
    ensures
        joined@ == signing_input(protected@, payload@),
{
    let mut joined = protected.to_owned();
    joined.append(".");
    joined.append(payload);
    proof {
        reveal_strlit(".");
    }
    joined
}

/// Reads the two signed segments out of a signature structure.
pub fn signing_segments<'a>(validation: &'a Value) -> (segments: Option<(&'a str, &'a str)>)
    ensures
        match segments {
            Some((protected, payload)) => segments_of(json_of(*validation)) == Some(
                (protected@, payload@),
            ),
            None => segments_of(json_of(*validation)) is None,
        },
{
    let protected = match json_member(validation, "protected") {
        Some(m) => m,
        None => { return None; },
    };
    let payload = match json_member(validation, "payload") {
        Some(m) => m,
        None => { return None; },
    };
    let signature = match json_member(validation, "signature") {
        Some(m) => m,
        None => { return None; },
    };
    let protected_chars = match json_text(protected) {
        Some(s) => s,
        None => { return None; },
    };
    let payload_chars = match json_text(payload) {
        Some(s) => s,
        None => { return None; },
    };
    match json_text(signature) {
        Some(_) => Some((protected_chars, payload_chars)),
        None => None,
    }
}

/// Decodes the license that was signed: the payload of the flattened
/// signature, read as JSON.
pub fn signed_license(jws: &FlattenedJws) -> (license: Option<License>)
    ensures
        match license {
            Some(l) => license_in(jws@.payload) == Some(l@),
            None => license_in(jws@.payload) is None,
        },
{
    match &jws.payload {
        Some(bytes) => match parse_json(bytes.as_slice()) {
            Some(value) => License::decode(&value),
            None => None,
        },
        None => None,
    }
}

/// Verifies license envelopes against one RSA public key with RS512.
pub struct LicenseVerifier {
    rsa_public_key: RsaPublicKey,
}

impl LicenseVerifier {
    /// The public key that the verifier is bound to.
    pub closed spec fn key(&self) -> RsaPublicKey {
        self.rsa_public_key
    }

    /// Binds a verifier to the RSA key that a JSON Web Key yielded, if it
    /// yielded one.
    pub fn from_material(material: RsaMaterial) -> (built: Result<LicenseVerifier, LicenseVerifierError>)
        ensures
            match built {
                Ok(verifier) => material == RsaMaterial::Usable(verifier.key()),
                Err(error) => !(material is Usable)
                    && error == LicenseVerifierError::KeyTypeNotSupported,
            },
    {
        match material {
            RsaMaterial::Usable(key) => Ok(LicenseVerifier { rsa_public_key: key }),
            _ => Err(LicenseVerifierError::KeyTypeNotSupported),
        }
    }

    /// Builds a verifier from a public key descriptor, a JSON Web Key.
    ///
    /// The descriptor is refused with `KeyIsNotJwk` where it does not parse
    /// as a JSON Web Key, and with `KeyTypeNotSupported` where the key does
    /// not support RS512 (a key that is no RSA key, or whose modulus has
    /// fewer than 512 bytes, never does) or its RSA parameters make no public
    /// key.
    pub fn new(public_key: Value) -> (built: Result<LicenseVerifier, LicenseVerifierError>)
        ensures
            match built {
                Ok(verifier) => construction(json_of(public_key)) == Ok::<
                    RsaPublicKey,
                    LicenseVerifierError,
                >(verifier.key()),
                Err(error) => construction(json_of(public_key)) == Err::<
                    RsaPublicKey,
                    LicenseVerifierError,
                >(error),
            },
            jwk_of(json_of(public_key)) is None <==> built matches Err(
                LicenseVerifierError::KeyIsNotJwk,
            ),
            ({
                &&& jwk_of(json_of(public_key)) matches Some(jwk)
                &&& jwk_modulus(jwk) matches Some(n) ==> n.len() < 512
            }) ==> built matches Err(LicenseVerifierError::KeyTypeNotSupported),
    {
        let jwk = match parse_jwk(public_key) {
            Some(jwk) => jwk,
            None => { return Err(LicenseVerifierError::KeyIsNotJwk); },
        };
        if !supports_rs512(&jwk) {
            return Err(LicenseVerifierError::KeyTypeNotSupported);
        }
        LicenseVerifier::from_material(rsa_material(&jwk))
    }

    /// Decides on decoded parts: the license shown in clear, the license
    /// recovered from the signed payload, the bytes that were signed and the
    /// signature over them.
    pub fn verify_signed(
        &self,
        clear: &License,
        signed: License,
        message: &[u8],
        signature: &[u8],
    ) -> (outcome: Result<License, LicenseVerificationError>)
        ensures
            agrees(outcome, settle(self.key(), clear@, signed@, message@, signature@)),
            outcome matches Ok(license) ==> license == signed,
    {
        if !signed.same_as(clear) {
            return Err(LicenseVerificationError::TamperedLicense);
        }
        if !rs512_verify(&self.rsa_public_key, message, signature) {
            return Err(LicenseVerificationError::VerificationFailure);
        }
        Ok(signed)
    }

    /// Verifies a signed license envelope and returns the license that was
    /// signed.
    ///
    /// The envelope is `InvalidVerifiableLicense` where it lacks a `license`
    /// that decodes, a `licenseValidation` with `protected`, `payload` and
    /// `signature` strings that parses as a flattened signature, or a payload
    /// that decodes to a license. It is a `TamperedLicense` where the clear
    /// license differs from the signed one, and a `VerificationFailure` where
    /// the signature over `protected.payload` is not accepted. What comes
    /// back on success is the license from the signed payload.
    pub fn verify(&self, verifiable_license_json: Value) -> (outcome: Result<
        License,
        LicenseVerificationError,
    >)
        ensures
            agrees(outcome, verdict(self.key(), json_of(verifiable_license_json))),
    {
        let envelope = match VerifiableLicense::decode(&verifiable_license_json) {
            Some(envelope) => envelope,
            None => { return Err(LicenseVerificationError::InvalidVerifiableLicense); },
        };
        let validation = envelope.license_validation();
        let (protected, payload) = match signing_segments(validation) {
            Some(segments) => segments,
            None => { return Err(LicenseVerificationError::InvalidVerifiableLicense); },
        };
        let data_to_verify = join_segments(protected, payload);
        let jws = match parse_flattened_jws(validation) {
            Some(jws) => jws,
            None => { return Err(LicenseVerificationError::InvalidVerifiableLicense); },
        };
        let signed = match signed_license(&jws) {
            Some(license) => license,
            None => { return Err(LicenseVerificationError::InvalidVerifiableLicense); },
        };
        self.verify_signed(
            envelope.license(),
            signed,
            data_to_verify.as_str().as_bytes(),
            jws.signature.as_slice(),
        )
    }
}

/// A license that was signed and is shown unchanged comes back exactly: where
/// the clear license and the license in the signed payload are both
/// `license`, and the signature over the signing input is accepted under the
/// key, the verdict is `license`.
pub proof fn lemma_signed_license_round_trips(
    key: RsaPublicKey,
    envelope: JsonTree,
    license: LicenseView,
)
    requires
        parts_of(envelope) is Some,
        parts_of(envelope).unwrap().clear == license,
        parts_of(envelope).unwrap().signed == license,
        rs512_accepts(
            key,
            parts_of(envelope).unwrap().message,
            parts_of(envelope).unwrap().signature,
        ),
    ensures
        verdict(key, envelope) == Ok::<LicenseView, LicenseVerificationError>(license),
{
}

/// Changing the clear license without signing again is detected: an envelope
/// that keeps the signature structure of an accepted one but shows another
/// license is tampered.
pub proof fn lemma_altered_license_is_tampered(
    key: RsaPublicKey,
    accepted: JsonTree,
    altered: JsonTree,
)
    requires
        verdict(key, accepted) is Ok,
        envelope_of(altered) is Some,
        envelope_of(altered).unwrap().1 == envelope_of(accepted).unwrap().1,
        envelope_of(altered).unwrap().0 != envelope_of(accepted).unwrap().0,
    ensures
        verdict(key, altered) == Err::<LicenseView, LicenseVerificationError>(
            LicenseVerificationError::TamperedLicense,
        ),
{
}

/// A signature that the key does not accept fails verification: where the
/// envelope is well formed and the clear license is the signed one, the
/// verdict is `VerificationFailure`.
pub proof fn lemma_rejected_signature_fails_verification(key: RsaPublicKey, envelope: JsonTree)
    requires
        parts_of(envelope) is Some,
        parts_of(envelope).unwrap().clear == parts_of(envelope).unwrap().signed,
        !rs512_accepts(
            key,
            parts_of(envelope).unwrap().message,
            parts_of(envelope).unwrap().signature,
        ),
    ensures
        verdict(key, envelope) == Err::<LicenseView, LicenseVerificationError>(
            LicenseVerificationError::VerificationFailure,
        ),
{
}

/// The algorithm is pinned: whatever the protected header declares, an
/// envelope is accepted only where the RS512 check under the verifier's key
/// accepts the signature over the two segments as they stand. What comes back
/// is then the signed license, which is also the clear one.
pub proof fn lemma_acceptance_rests_on_rs512(key: RsaPublicKey, envelope: JsonTree)
    requires
        verdict(key, envelope) is Ok,
    ensures
        parts_of(envelope) is Some,
        rs512_accepts(
            key,
            parts_of(envelope).unwrap().message,
            parts_of(envelope).unwrap().signature,
        ),
        verdict(key, envelope) == Ok::<LicenseView, LicenseVerificationError>(
            parts_of(envelope).unwrap().signed,
        ),
        parts_of(envelope).unwrap().signed == parts_of(envelope).unwrap().clear,
{
}

/// An envelope that lacks `license`, `licenseValidation`, or one of
/// `protected`, `payload` and `signature` inside the latter is invalid, and
/// nothing else.
pub proof fn lemma_missing_member_is_invalid(key: RsaPublicKey, envelope: JsonTree)
    requires
        ({
            ||| member(envelope, "license"@) is None
            ||| member(envelope, "licenseValidation"@) is None
            ||| member(member(envelope, "licenseValidation"@).unwrap(), "protected"@) is None
            ||| member(member(envelope, "licenseValidation"@).unwrap(), "payload"@) is None
            ||| member(member(envelope, "licenseValidation"@).unwrap(), "signature"@) is None
        }),
    ensures
        verdict(key, envelope) == Err::<LicenseView, LicenseVerificationError>(
            LicenseVerificationError::InvalidVerifiableLicense,
        ),
{
}

} // verus!
