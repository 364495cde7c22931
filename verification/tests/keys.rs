use jose_jwk::jose_b64::base64ct::{Base64UrlUnpadded, Encoding};
use license_verifier::jose::RsaMaterial;
use license_verifier::verification::{LicenseVerifier, LicenseVerifierError};
use serde_json::Value;

const MODULUS_4096: &str = "ziWUk8mSfgyLjHt_9iqY3PrwkmbrGkfYKckFuYAtbaBG4RLdluDOJu0xyIhR9l4jOCWqlt_C1ks2ED8lY9kXBgIg\
    5LQI6d1XhPOdoF-GlKFfpQGtWQ_l6Pkg3nMQSGZoW76ISuVhXebMk4x73y928-i_xCGzTUSpJYEAHQRF_hM_C5w2\
    -Zm8u7cm5GlOxKlpVAmRP6mkWGRAR3C476MMn7gP4_PlzgA522O3QMqVXuL5tyL7zsDNkDwtrzz2WBgqmKPJKp3X\
    huJsbm2ytR9QHvHZ0FcxuUxx4xWMaFadSQc7fMShTCY_YNzHA5P_SMXIp5jwf-sqCUGFRssFw_3ZaZmSC0W70Er3\
    9Qb_PPXfrLL35N0uuxp0uIyuTWz-8Swbyu6jWWzwaeNi0aZuzGr3_uItjC1Dk8vSQTjsFA-S-Ww5RfXC7Jigqq03\
    I9jwp2h5EONJf9QB8rmnYndtNepZ4DlFoC1_6kP2Z_TsYQCCyPRIa5ame0Sj_27VSLWJybJZgHc3Ky9msaSdT9y0\
    qCX9oG-Vgt_CmMmMrED7s6LFEWyED6uBUFZJWCKPCwOA9PAjv7xovufykwUe3SyWfPTNYkPPSv6aY4riVFnvev4P\
    3SWEY1OLkNh5LqOC97yR7m9FOkZFIbkgfI9tGBVcBfiGIkKI4_lYUVELslLxfAj7pz0";

fn key_text(chars: &str) -> Value {
    Value::String(chars.to_string())
}

fn key_object(members: Vec<(&str, Value)>) -> Value {
    let mut map = serde_json::Map::new();
    for (key, value) in members {
        map.insert(key.to_string(), value);
    }
    Value::Object(map)
}

fn rsa_descriptor(modulus: &str, exponent: &str) -> Value {
    key_object(vec![
        ("kty", key_text("RSA")),
        ("n", key_text(modulus)),
        ("e", key_text(exponent)),
    ])
}

fn refusal(descriptor: Value) -> LicenseVerifierError {
    match LicenseVerifier::new(descriptor) {
        Ok(_) => panic!("the descriptor should have been refused"),
        Err(error) => error,
    }
}

fn modulus_bytes() -> Vec<u8> {
    Base64UrlUnpadded::decode_vec(MODULUS_4096).expect("the modulus is base64url")
}

#[test]
fn key_of_4096_bits_is_accepted_with_and_without_algorithm() {
    assert!(LicenseVerifier::new(rsa_descriptor(MODULUS_4096, "AQAB")).is_ok());
    let declared = key_object(vec![
        ("alg", key_text("RS512")),
        ("kty", key_text("RSA")),
        ("n", key_text(MODULUS_4096)),
        ("e", key_text("AQAB")),
        ("kid", key_text("issuer-2024")),
        ("use", key_text("sig")),
    ]);
    assert!(LicenseVerifier::new(declared).is_ok());
}

#[test]
fn modulus_has_512_bytes() {
    assert_eq!(modulus_bytes().len(), 512);
}

#[test]
fn descriptor_that_is_no_object_is_no_jwk() {
    assert_eq!(refusal(Value::Null), LicenseVerifierError::KeyIsNotJwk);
    assert_eq!(refusal(Value::Bool(true)), LicenseVerifierError::KeyIsNotJwk);
    assert_eq!(refusal(key_text("RSA")), LicenseVerifierError::KeyIsNotJwk);
    assert_eq!(refusal(Value::Array(vec![])), LicenseVerifierError::KeyIsNotJwk);
    assert_eq!(refusal(key_object(vec![])), LicenseVerifierError::KeyIsNotJwk);
}

#[test]
fn descriptor_without_key_type_is_no_jwk() {
    let untyped = key_object(vec![("n", key_text(MODULUS_4096)), ("e", key_text("AQAB"))]);
    assert_eq!(refusal(untyped), LicenseVerifierError::KeyIsNotJwk);
}

#[test]
fn descriptor_with_unknown_key_type_is_no_jwk() {
    let unknown = key_object(vec![
        ("kty", key_text("DSA")),
        ("n", key_text(MODULUS_4096)),
        ("e", key_text("AQAB")),
    ]);
    assert_eq!(refusal(unknown), LicenseVerifierError::KeyIsNotJwk);
}

#[test]
fn rsa_descriptor_without_modulus_or_exponent_is_no_jwk() {
    let without_modulus = key_object(vec![("kty", key_text("RSA")), ("e", key_text("AQAB"))]);
    assert_eq!(refusal(without_modulus), LicenseVerifierError::KeyIsNotJwk);
    let without_exponent =
        key_object(vec![("kty", key_text("RSA")), ("n", key_text(MODULUS_4096))]);
    assert_eq!(refusal(without_exponent), LicenseVerifierError::KeyIsNotJwk);
}

#[test]
fn modulus_that_is_not_base64url_is_no_jwk() {
    assert_eq!(refusal(rsa_descriptor("***", "AQAB")), LicenseVerifierError::KeyIsNotJwk);
    let numeric = key_object(vec![
        ("kty", key_text("RSA")),
        ("n", Value::from(65537)),
        ("e", key_text("AQAB")),
    ]);
    assert_eq!(refusal(numeric), LicenseVerifierError::KeyIsNotJwk);
}

#[test]
fn unknown_algorithm_is_no_jwk() {
    let declared = key_object(vec![
        ("alg", key_text("RS1024")),
        ("kty", key_text("RSA")),
        ("n", key_text(MODULUS_4096)),
        ("e", key_text("AQAB")),
    ]);
    assert_eq!(refusal(declared), LicenseVerifierError::KeyIsNotJwk);
}

#[test]
fn key_declared_for_another_algorithm_is_not_supported() {
    for algorithm in ["RS256", "RS384", "PS512", "ES512", "HS512"] {
        let declared = key_object(vec![
            ("alg", key_text(algorithm)),
            ("kty", key_text("RSA")),
            ("n", key_text(MODULUS_4096)),
            ("e", key_text("AQAB")),
        ]);
        assert_eq!(refusal(declared), LicenseVerifierError::KeyTypeNotSupported);
    }
}

#[test]
fn symmetric_key_is_not_supported() {
    let symmetric = key_object(vec![
        ("kty", key_text("oct")),
        ("k", key_text("AAECAwQFBgcICQoLDA0ODxAREhMUFRYXGBkaGxwdHh8gISIjJCUmJygpKissLS4vMDEyMzQ1Njc4OTo7PD0-Pw")),
    ]);
    assert_eq!(refusal(symmetric), LicenseVerifierError::KeyTypeNotSupported);
}

#[test]
fn elliptic_curve_key_without_algorithm_is_not_supported() {
    let curve = key_object(vec![
        ("kty", key_text("EC")),
        ("crv", key_text("P-256")),
        ("x", key_text("6G267OCXrqG-Kr5RuHmUOO7OoRMItapzzG3z0I4pnEU")),
        ("y", key_text("i3vOYB9DU-pbCS_vD0ob9X6jvWX2W-TZxF-tJ4sc710")),
    ]);
    assert_eq!(refusal(curve), LicenseVerifierError::KeyTypeNotSupported);
}

#[test]
fn modulus_one_byte_short_of_512_is_not_supported() {
    let bytes = modulus_bytes();
    let shorter = Base64UrlUnpadded::encode_string(&bytes[1..]);
    assert_eq!(
        refusal(rsa_descriptor(&shorter, "AQAB")),
        LicenseVerifierError::KeyTypeNotSupported
    );
}

#[test]
fn small_moduli_are_not_supported() {
    for length in [0usize, 1, 128, 256, 384, 511] {
        let mut bytes = vec![0xabu8; length];
        if let Some(last) = bytes.last_mut() {
            *last = 0x01;
        }
        let modulus = Base64UrlUnpadded::encode_string(&bytes);
        assert_eq!(
            refusal(rsa_descriptor(&modulus, "AQAB")),
            LicenseVerifierError::KeyTypeNotSupported
        );
    }
}

#[test]
fn even_exponent_makes_no_public_key() {
    assert_eq!(
        refusal(rsa_descriptor(MODULUS_4096, "Ag")),
        LicenseVerifierError::KeyTypeNotSupported
    );
    assert_eq!(
        refusal(rsa_descriptor(MODULUS_4096, "")),
        LicenseVerifierError::KeyTypeNotSupported
    );
}

#[test]
fn even_modulus_makes_no_public_key() {
    let mut bytes = modulus_bytes();
    let last = bytes.len() - 1;
    bytes[last] &= 0xfe;
    let even = Base64UrlUnpadded::encode_string(&bytes);
    assert_eq!(
        refusal(rsa_descriptor(&even, "AQAB")),
        LicenseVerifierError::KeyTypeNotSupported
    );
}

#[test]
fn modulus_over_4096_bits_makes_no_public_key() {
    let mut bytes = modulus_bytes();
    bytes.insert(0, 0x01);
    let longer = Base64UrlUnpadded::encode_string(&bytes);
    assert_eq!(
        refusal(rsa_descriptor(&longer, "AQAB")),
        LicenseVerifierError::KeyTypeNotSupported
    );
}

#[test]
fn material_without_a_key_is_refused() {
    assert!(matches!(
        LicenseVerifier::from_material(RsaMaterial::NotRsa),
        Err(LicenseVerifierError::KeyTypeNotSupported)
    ));
    assert!(matches!(
        LicenseVerifier::from_material(RsaMaterial::Unusable),
        Err(LicenseVerifierError::KeyTypeNotSupported)
    ));
}

#[test]
fn material_with_a_key_binds_a_verifier() {
    let modulus = rsa::BigUint::from_bytes_be(&modulus_bytes());
    let exponent = rsa::BigUint::from_bytes_be(&[1, 0, 1]);
    let key = rsa::RsaPublicKey::new(modulus, exponent).expect("a public key");
    assert!(LicenseVerifier::from_material(RsaMaterial::Usable(key)).is_ok());
}
