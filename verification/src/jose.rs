//! The cryptographic collaborators: JSON Web Key parsing, flattened JSON Web
//! Signature parsing and the RSA signature check. Each is called as it is;
//! what it returns is given a name, and the verifier's decisions are stated
//! over those names.

use jose_jwk::crypto::KeyInfo;
use jose_jwk::jose_jwa::{Algorithm, Signing};
use jose_jwk::{Jwk, Key};
use jose_jws::Jws;
use rsa::pkcs1v15::{Signature, VerifyingKey};
use rsa::sha2::Sha512;
use rsa::signature::Verifier;
use rsa::RsaPublicKey;
use serde_json::Value;
use vstd::prelude::*;

use crate::json::{json_of, JsonTree};

verus! {

/// A parsed JSON Web Key of `jose_jwk`, carried as it is.
#[verifier::external_type_specification]
#[verifier::external_body]
pub struct ExJwk(jose_jwk::Jwk);

/// An RSA public key of the `rsa` crate, carried as it is.
#[verifier::external_type_specification]
#[verifier::external_body]
pub struct ExRsaPublicKey(rsa::RsaPublicKey);

/// What a JSON Web Key yields when asked for an RSA public key.
pub enum RsaMaterial {
    /// The key is of another kind (elliptic curve, symmetric, ...).
    NotRsa,
    /// The key is an RSA key, but modulus and exponent make no public key.
    Unusable,
    /// The public key that modulus and exponent make.
    Usable(RsaPublicKey),
}

/// The parts of a flattened JSON Web Signature that verification reads,
/// both decoded from base64url.
pub struct FlattenedJws {
    /// The payload, where the structure has one.
    pub payload: Option<Vec<u8>>,
    /// The signature value.
    pub signature: Vec<u8>,
}

/// A flattened signature as a mathematical value.
pub struct FlattenedJwsView {
    /// The payload, where the structure has one.
    pub payload: Option<Seq<u8>>,
    /// The signature value.
    pub signature: Seq<u8>,
}

impl View for FlattenedJws {
    type V = FlattenedJwsView;

    open spec fn view(&self) -> FlattenedJwsView {
        FlattenedJwsView {
            payload: match self.payload {
                Some(bytes) => Some(bytes@),
                None => None,
            },
            signature: self.signature@,
        }
    }
}

/// What deserialising a JSON tree as a `Jwk` gives: the key, `None` where the
/// tree is no JSON Web Key.
pub uninterp spec fn jwk_of(descriptor: JsonTree) -> Option<Jwk>;

/// The modulus bytes that a JSON Web Key holds where it is an RSA key, as
/// its `n` member gave them; `None` for a key of another kind.
pub uninterp spec fn jwk_modulus(jwk: Jwk) -> Option<Seq<u8>>;

/// Whether `KeyInfo::is_supported` says that the key can be used with RS512.
pub uninterp spec fn jwk_supports_rs512(jwk: Jwk) -> bool;

/// The RSA public key that `RsaPublicKey::try_from` builds from the key
/// material of a JSON Web Key.
pub uninterp spec fn jwk_rsa_material(jwk: Jwk) -> RsaMaterial;

/// What deserialising a JSON tree as a `Jws` gives, where it comes out as the
/// flattened form: payload and signature bytes. `None` where the tree is no
/// JSON Web Signature, or is one in the general form.
pub uninterp spec fn flattened_jws_of(validation: JsonTree) -> Option<FlattenedJwsView>;

/// Whether the RSASSA-PKCS1-v1_5 verifier with SHA-512 accepts `signature`
/// for `message` under `key`.
pub uninterp spec fn rs512_accepts(key: RsaPublicKey, message: Seq<u8>, signature: Seq<u8>) -> bool;

/// `serde_json::from_value::<Jwk>`: the parsed key, `None` where
/// deserialisation fails.
#[verifier::external_body]
pub(crate) fn parse_jwk(descriptor: Value) -> (parsed: Option<Jwk>)
    ensures
        parsed == jwk_of(json_of(descriptor)),
{
    serde_json::from_value::<Jwk>(descriptor).ok()
}

/// `KeyInfo::is_supported` of a `Jwk`, asked about the signing algorithm
/// RS512. It says yes only for an RSA key whose modulus has at least 512
/// bytes: the key's strength, a sixteenth of that length, must reach 32.
#[verifier::external_body]
pub(crate) fn supports_rs512(jwk: &Jwk) -> (supported: bool)
    ensures
        supported == jwk_supports_rs512(*jwk),
        supported ==> (jwk_modulus(*jwk) matches Some(n) && n.len() >= 512),
{
    jwk.is_supported(&Algorithm::from(Signing::Rs512))
}

/// `RsaPublicKey::try_from` on the RSA material of a `Jwk`; a key of another
/// kind has none.
#[verifier::external_body]
pub(crate) fn rsa_material(jwk: &Jwk) -> (material: RsaMaterial)
    ensures
        material == jwk_rsa_material(*jwk),
        material is NotRsa <==> jwk_modulus(*jwk) is None,
{
    match &jwk.key {
        Key::Rsa(rsa) => match RsaPublicKey::try_from(rsa) {
            Ok(key) => RsaMaterial::Usable(key),
            Err(_) => RsaMaterial::Unusable,
        },
        _ => RsaMaterial::NotRsa,
    }
}

/// `serde_json::from_value::<Jws>`, kept where the result is the flattened
/// form: its payload and signature bytes.
#[verifier::external_body]
pub(crate) fn parse_flattened_jws(validation: &Value) -> (parsed: Option<FlattenedJws>)
    ensures
        match parsed {
            Some(jws) => flattened_jws_of(json_of(*validation)) == Some(jws@),
            None => flattened_jws_of(json_of(*validation)) is None,
        },
{
    match serde_json::from_value::<Jws>(validation.clone()) {
        Ok(Jws::Flattened(flat)) => Some(
            FlattenedJws {
                payload: flat.payload.map(|bytes| bytes.to_vec()),
                signature: flat.signature.signature.to_vec(),
            },
        ),
        _ => None,
    }
}

/// `Verifier::verify` of `VerifyingKey<Sha512>` for the given key, on the
/// message and the signature made of the given bytes.
#[verifier::external_body]
pub(crate) fn rs512_verify(key: &RsaPublicKey, message: &[u8], signature: &[u8]) -> (accepted: bool)
    ensures
        accepted == rs512_accepts(*key, message@, signature@),
{
    match Signature::try_from(signature) {
        Ok(sig) => VerifyingKey::<Sha512>::new(key.clone()).verify(message, &sig).is_ok(),
        Err(_) => false,
    }
}

} // verus!
