//! Reading and verifying European Digital Covid Certificates.
//!
//! A certificate travels as text: an optional `HC1:` prefix, base45, zlib, and
//! inside a COSE_Sign1 message. This crate decodes that envelope, resolves its
//! headers, rebuilds the bytes that were signed and checks the signature
//! against an issuer certificate taken from a trust store.
mod cbor;
mod codecs;
mod cose;
mod parsing_result;
mod read_dcc;
mod trust_store;

pub use crate::cbor::{cbor_decode, CborValue};
pub use crate::codecs::{base64_encode, EcdsaFailure};
pub use crate::cose::{
    header, CoseSingleSigned, Header, Headers, Payload, ProtectedHeaders, StructuralError,
};
pub use crate::parsing_result::{ParsingResult, ParsingResultBuilder};
pub use crate::read_dcc::read_dcc;
pub use crate::trust_store::TrustStore;

use crate::codecs::{
    base64_decode, base64_decoded, bytes_outcome, certificate_public_key, p256_verification,
    p256_verify, x509_public_key,
};
use crate::cose::{alg_of, kid_of, signing_input_of, CoseView};
use crate::parsing_result::{initial_result, ResultView};
use crate::read_dcc::read_dcc_spec;
use crate::trust_store::lookup;
use vstd::prelude::*;
use vstd::string::StringSliceAdditionalSpecFns;

verus! {

/// The outcome of checking a message's signature with the issuer certificate
/// that the store holds for `kid`: nothing, or the text of the first error.
pub open spec fn signature_check(c: CoseView, kid: Seq<char>, store: Seq<(Seq<char>, Seq<char>)>) -> Result<
    (),
    Seq<char>,
> {
    match lookup(store, kid) {
        None => Err("No public certificate known for issuer with kid "@ + kid),
        Some(cert) => match base64_decoded(cert) {
            Err(e) => Err("Error on base64 decoding issuer cert: "@ + e),
            Ok(der) => match x509_public_key(der) {
                Err(e) => Err("Couldn't load issuer cert: "@ + e),
                Ok(key) => match signing_input_of(c) {
                    Err(e) => Err("Error on cbor encoding to sign object: "@ + e),
                    Ok(message) => match p256_verification(key, message, c.signature) {
                        Ok(()) => Ok(()),
                        Err((EcdsaFailure::PublicKey, e)) => Err("Couldn't load public key: "@ + e),
                        Err((EcdsaFailure::SignatureFormat, e)) => Err(
                            "Error on parsing signature bytes: "@ + e,
                        ),
                        Err((EcdsaFailure::Mismatch, e)) => Err("Error verifying signature: "@ + e),
                    },
                },
            },
        },
    }
}

/// What reading and verifying a token against a store gives.
pub open spec fn parse_spec(token: Seq<u8>, store: Seq<(Seq<char>, Seq<char>)>) -> ResultView {
    match read_dcc_spec(token) {
        Err(e) => ResultView {
            successful: false,
            error: "Couldn't parse COSE message: "@ + e,
            ..initial_result()
        },
        Ok(c) => {
            let kid = match kid_of(c) {
                Some(k) => k,
                None => Seq::empty(),
            };
            let algorithm = match alg_of(c) {
                Some(a) => a,
                None => 0,
            };
            let parsed = ResultView {
                successful: true,
                data: Some(c.payload),
                kid,
                algorithm,
                ..initial_result()
            };
            match signature_check(c, kid, store) {
                Ok(()) => ResultView { signature_valid: true, ..parsed },
                Err(e) => ResultView { signature_valid: false, error: e, ..parsed },
            }
        },
    }
}

/// Checks the signature of `cose` with the issuer certificate that `store`
/// holds for `kid`.
pub fn check_signature(cose: &CoseSingleSigned, kid: &str, store: &TrustStore) -> (r: Result<
    (),
    String,
>)
    ensures
        match r {
            Ok(()) => signature_check(cose@, kid@, store@) == Ok::<(), Seq<char>>(()),
            Err(e) => signature_check(cose@, kid@, store@) == Err::<(), Seq<char>>(e@),
        },
{
    let issuer_cert = match store.find_issuer_cert(kid) {
        Some(c) => c,
        None => {
            return Err(
                String::from_str("No public certificate known for issuer with kid ").concat(kid),
            )
        },
    };
    let der = match base64_decode(issuer_cert.as_str()) {
        Ok(d) => d,
        Err(e) => {
            return Err(String::from_str("Error on base64 decoding issuer cert: ").concat(e.as_str()))
        },
    };
    let key = match certificate_public_key(der.as_slice()) {
        Ok(k) => k,
        Err(e) => return Err(String::from_str("Couldn't load issuer cert: ").concat(e.as_str())),
    };
    let message = match cose.signing_input() {
        Ok(m) => m,
        Err(e) => {
            return Err(String::from_str("Error on cbor encoding to sign object: ").concat(e.as_str()))
        },
    };
    match p256_verify(key.as_slice(), message.as_slice(), cose.signature()) {
        Ok(()) => Ok(()),
        Err((EcdsaFailure::PublicKey, e)) => Err(
            String::from_str("Couldn't load public key: ").concat(e.as_str()),
        ),
        Err((EcdsaFailure::SignatureFormat, e)) => Err(
            String::from_str("Error on parsing signature bytes: ").concat(e.as_str()),
        ),
        Err((EcdsaFailure::Mismatch, e)) => Err(
            String::from_str("Error verifying signature: ").concat(e.as_str()),
        ),
    }
}

/// Reads a certificate token and verifies its signature against the issuer
/// certificates of `store`.
///
/// Where the token cannot be read, the result is unsuccessful and carries no
/// data. Where it can, the result is successful and carries the payload, the
/// key identifier and the algorithm, whatever becomes of the signature check.
pub fn parse(dcc_certificate: &str, store: &TrustStore) -> (r: ParsingResult)
    ensures
        r@ == parse_spec(dcc_certificate.spec_bytes(), store@),
{
    let result_builder = ParsingResultBuilder::new();
    let cose = match read_dcc(dcc_certificate) {
        Ok(cose) => cose,
        Err(e) => {
            let message = String::from_str("Couldn't parse COSE message: ").concat(e.as_str());
            return result_builder.fail_with_error(message.as_str()).build();
        },
    };
    let kid = match cose.kid() {
        Some(k) => k,
        None => String::new(),
    };
    let alg = match cose.alg() {
        Some(a) => a,
        None => 0,
    };
    let checked = check_signature(&cose, kid.as_str(), store);
    let (_, _, payload, _) = cose.into_parts();
    let parsed_successful = result_builder.success().kid(kid.as_str()).alg(alg).data(payload.data);
    match checked {
        Ok(()) => parsed_successful.signature_valid(true).build(),
        Err(e) => parsed_successful.signature_error(e.as_str()).build(),
    }
}

/// Two reads of one token against one store give the same result.
pub proof fn lemma_parse_idempotent(
    token: Seq<u8>,
    store: Seq<(Seq<char>, Seq<char>)>,
    first: ResultView,
    second: ResultView,
)
    requires
        first == parse_spec(token, store),
        second == parse_spec(token, store),
    ensures
        first == second,
{
}

/// Where the token can be read, the result reports success and carries the
/// payload, whether or not the signature can be confirmed.
pub proof fn lemma_signature_failure_keeps_data(token: Seq<u8>, store: Seq<(Seq<char>, Seq<char>)>)
    requires
        read_dcc_spec(token) is Ok,
    ensures
        parse_spec(token, store).successful,
        parse_spec(token, store).data == Some(read_dcc_spec(token)->Ok_0.payload),
        !parse_spec(token, store).signature_valid ==> signature_check(
            read_dcc_spec(token)->Ok_0,
            parse_spec(token, store).kid,
            store,
        ) is Err,
{
}

} // verus!
