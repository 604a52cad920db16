use crate::cbor::{cbor_decode, cbor_decoded};
use crate::codecs::{base45_decode, base45_decoded, zlib_inflate, zlib_inflated};
use crate::cose::{envelope, CoseSingleSigned, CoseView, StructuralError};
use vstd::prelude::*;
use vstd::string::StringSliceAdditionalSpecFns;

verus! {

/// The bytes of the text `HC1:`, which may stand in front of a certificate.
pub open spec fn hc1_prefix() -> Seq<u8> {
    seq![72u8, 67u8, 49u8, 58u8]
}

/// The token without its `HC1:` prefix, where it has one.
pub open spec fn without_prefix(token: Seq<u8>) -> Seq<u8> {
    if token.len() >= 4 && token.subrange(0, 4) == hc1_prefix() {
        token.skip(4)
    } else {
        token
    }
}

/// The message that a certificate token holds, or the text of the first error.
pub open spec fn read_dcc_spec(token: Seq<u8>) -> Result<CoseView, Seq<char>> {
    match base45_decoded(without_prefix(token)) {
        Err(e) => Err("Error on base45 decode: "@ + e),
        Ok(compressed) => match zlib_inflated(compressed) {
            Err(e) => Err("Error on zlib decompressing: "@ + e),
            Ok(encoded) => match cbor_decoded(encoded) {
                None => Err(StructuralError::NotAnArray.spec_message()),
                Some(v) => match envelope(v) {
                    Ok(c) => Ok(c),
                    Err(StructuralError::NotAnArray) => Err(
                        StructuralError::NotAnArray.spec_message(),
                    ),
                    Err(e) => Err("Couldn't parse COSE message: "@ + e.spec_message()),
                },
            },
        },
    }
}

/// The bytes of a token without its `HC1:` prefix.
fn strip_prefix(token: &[u8]) -> (r: Vec<u8>)
    ensures
        r@ == without_prefix(token@),
{
    let start: usize = if token.len() >= 4 && token[0] == 72u8 && token[1] == 67u8 && token[2]
        == 49u8 && token[3] == 58u8 {
        assert(token@.subrange(0, 4) =~= hc1_prefix());
        4
    } else {
        proof {
            if token@.len() >= 4 {
                assert(token@.subrange(0, 4)[0] == token@[0]);
                assert(token@.subrange(0, 4)[1] == token@[1]);
                assert(token@.subrange(0, 4)[2] == token@[2]);
                assert(token@.subrange(0, 4)[3] == token@[3]);
            }
        }
        0
    };
    let mut out: Vec<u8> = Vec::new();
    let mut i: usize = start;
    while i < token.len()
        invariant
            start <= i <= token@.len(),
            out@ =~= token@.subrange(start as int, i as int),
        decreases token@.len() - i,
    {
        out.push(token[i]);
        i = i + 1;
    }
    assert(token@.skip(start as int) =~= token@.subrange(start as int, token@.len() as int));
    assert(token@.skip(0) =~= token@);
    out
}

/// Reads a certificate token: strips `HC1:`, decodes base45, decompresses
/// zlib and decodes the COSE message in the CBOR that comes out.
pub fn read_dcc(dcc_certificate: &str) -> (r: Result<CoseSingleSigned, String>)
    ensures
        match r {
            Ok(c) => read_dcc_spec(dcc_certificate.spec_bytes()) == Ok::<CoseView, Seq<char>>(c@),
            Err(e) => read_dcc_spec(dcc_certificate.spec_bytes()) == Err::<CoseView, Seq<char>>(e@),
        },
{
    let body = strip_prefix(dcc_certificate.as_bytes());
    let compressed = match base45_decode(body.as_slice()) {
        Ok(d) => d,
        Err(e) => return Err(String::from_str("Error on base45 decode: ").concat(e.as_str())),
    };
    let encoded = match zlib_inflate(compressed.as_slice()) {
        Ok(d) => d,
        Err(e) => return Err(String::from_str("Error on zlib decompressing: ").concat(e.as_str())),
    };
    let value = match cbor_decode(encoded.as_slice()) {
        Some(v) => v,
        None => return Err(StructuralError::NotAnArray.message()),
    };
    match CoseSingleSigned::try_from(value) {
        Ok(cose) => Ok(cose),
        Err(StructuralError::NotAnArray) => Err(StructuralError::NotAnArray.message()),
        Err(e) => Err(String::from_str("Couldn't parse COSE message: ").concat(e.message().as_str())),
    }
}

} // verus!
