use ciborium::value::Value;
use p256::ecdsa::signature::{Signature as _, Verifier as _};
use std::io::Read;
use x509_parser::prelude::FromDer;
use vstd::prelude::*;

verus! {

/// A transform's outcome seen as plain values: the bytes it produced, or its
/// error's text.
pub open spec fn bytes_outcome(r: Result<Vec<u8>, String>) -> Result<Seq<u8>, Seq<char>> {
    match r {
        Ok(b) => Ok(b@),
        Err(e) => Err(e@),
    }
}

/// What base45 decoding makes of `text`.
pub uninterp spec fn base45_decoded(text: Seq<u8>) -> Result<Seq<u8>, Seq<char>>;

/// What zlib decompression makes of `data`.
pub uninterp spec fn zlib_inflated(data: Seq<u8>) -> Result<Seq<u8>, Seq<char>>;

/// The standard base64 alphabet encoding of `data`, with padding.
pub uninterp spec fn base64_encoded(data: Seq<u8>) -> Seq<char>;

/// What standard base64 decoding makes of `text`.
pub uninterp spec fn base64_decoded(text: Seq<char>) -> Result<Seq<u8>, Seq<char>>;

/// The subject public key that an X.509 certificate in DER form carries.
pub uninterp spec fn x509_public_key(der: Seq<u8>) -> Result<Seq<u8>, Seq<char>>;

/// The CBOR encoding of the array `[context, protected, external_aad, payload]`,
/// the first a text string and the others byte strings.
pub uninterp spec fn sig_structure_encoding(
    context: Seq<char>,
    protected: Seq<u8>,
    external_aad: Seq<u8>,
    payload: Seq<u8>,
) -> Result<Seq<u8>, Seq<char>>;

/// The step at which an ECDSA P-256 signature check stopped.
#[derive(Debug, PartialEq, Eq, Structural)]
pub enum EcdsaFailure {
    /// The key is no SEC1-encoded P-256 point.
    PublicKey,
    /// The signature bytes are no fixed-size `r || s` pair.
    SignatureFormat,
    /// The signature does not match the message under the key.
    Mismatch,
}

/// The outcome of an ECDSA P-256 / SHA-256 check of `signature` over `message`
/// under the SEC1-encoded `public_key`.
pub uninterp spec fn p256_verification(
    public_key: Seq<u8>,
    message: Seq<u8>,
    signature: Seq<u8>,
) -> Result<(), (EcdsaFailure, Seq<char>)>;

/// Relies on base45::decode: decodes base45 text given as bytes.
#[verifier::external_body]
pub fn base45_decode(text: &[u8]) -> (r: Result<Vec<u8>, String>)
    ensures
        bytes_outcome(r) == base45_decoded(text@),
{
    base45::decode(text).map_err(|e| e.to_string())
}

/// Relies on flate2::read::ZlibDecoder: decompresses a zlib stream to its end.
#[verifier::external_body]
pub fn zlib_inflate(data: &[u8]) -> (r: Result<Vec<u8>, String>)
    ensures
        bytes_outcome(r) == zlib_inflated(data@),
{
    let mut out: Vec<u8> = Vec::new();
    match flate2::read::ZlibDecoder::new(data).read_to_end(&mut out) {
        Ok(_) => Ok(out),
        Err(e) => Err(e.to_string()),
    }
}

/// Relies on base64::encode: the standard alphabet with padding, four
/// characters for each started group of three bytes.
#[verifier::external_body]
pub fn base64_encode(data: &[u8]) -> (r: String)
    ensures
        r@ == base64_encoded(data@),
        r@.len() == 4 * ((data@.len() + 2) / 3),
{
    base64::encode(data)
}

/// Relies on base64::decode: standard alphabet with padding.
#[verifier::external_body]
pub fn base64_decode(text: &str) -> (r: Result<Vec<u8>, String>)
    ensures
        bytes_outcome(r) == base64_decoded(text@),
{
    base64::decode(text).map_err(|e| e.to_string())
}

/// Relies on x509_parser's X509Certificate::from_der: the bits of the subject
/// public key of the certificate that `der` holds.
#[verifier::external_body]
pub fn certificate_public_key(der: &[u8]) -> (r: Result<Vec<u8>, String>)
    ensures
        bytes_outcome(r) == x509_public_key(der@),
{
    match x509_parser::certificate::X509Certificate::from_der(der) {
        Ok((_, cert)) => Ok(cert.public_key().subject_public_key.data.to_vec()),
        Err(e) => Err(e.to_string()),
    }
}

/// Relies on ciborium::ser::into_writer: encodes the four-element array of a
/// text string and three byte strings.
#[verifier::external_body]
pub fn encode_sig_structure(context: &str, protected: &[u8], external_aad: &[u8], payload: &[u8]) -> (r:
    Result<Vec<u8>, String>)
    ensures
        bytes_outcome(r) == sig_structure_encoding(context@, protected@, external_aad@, payload@),
{
    let items = [
        Value::Text(context.to_string()),
        Value::Bytes(protected.to_vec()),
        Value::Bytes(external_aad.to_vec()),
        Value::Bytes(payload.to_vec()),
    ];
    let mut out: Vec<u8> = Vec::new();
    ciborium::ser::into_writer(&items, &mut out).map(|_| out).map_err(|e| e.to_string())
}

/// Relies on p256 (PublicKey::from_sec1_bytes, Signature::from_bytes and the
/// ecdsa VerifyingKey's Verifier::verify): the outcome depends on the three
/// byte strings alone.
#[verifier::external_body]
pub fn p256_verify(public_key: &[u8], message: &[u8], signature: &[u8]) -> (r: Result<
    (),
    (EcdsaFailure, String),
>)
    ensures
        match r {
            Ok(()) => p256_verification(public_key@, message@, signature@) == Ok::<
                (),
                (EcdsaFailure, Seq<char>),
            >(()),
            Err((f, e)) => p256_verification(public_key@, message@, signature@) == Err::<
                (),
                (EcdsaFailure, Seq<char>),
            >((f, e@)),
        },
{
    let key = match p256::PublicKey::from_sec1_bytes(public_key) {
        Ok(k) => p256::ecdsa::VerifyingKey::from(&k),
        Err(e) => return Err((EcdsaFailure::PublicKey, e.to_string())),
    };
    let sig = match p256::ecdsa::Signature::from_bytes(signature) {
        Ok(s) => s,
        Err(e) => return Err((EcdsaFailure::SignatureFormat, e.to_string())),
    };
    key.verify(message, &sig).map_err(|e| (EcdsaFailure::Mismatch, e.to_string()))
}

} // verus!
