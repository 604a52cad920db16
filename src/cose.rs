use crate::cbor::{cbor_decode, cbor_decoded, untagged, CborValue};
use crate::codecs::{
    base64_encode, base64_encoded, bytes_outcome, encode_sig_structure, sig_structure_encoding,
};
use vstd::prelude::*;

verus! {

/// A header map: label/value pairs in the order of the encoding.
pub type Headers = Vec<(CborValue, CborValue)>;

/// Why an item is no single-signed COSE message.
#[derive(Debug, PartialEq, Eq, Structural)]
pub enum StructuralError {
    NotAnArray,
    ProtectedHeadersNotBytes,
    ProtectedHeadersNotDecodable,
    InvalidProtectedHeaders,
    InvalidUnprotectedHeaders,
    PayloadNotBytes,
    PayloadNotDecodable,
    SignatureNotBytes,
}

impl StructuralError {
    pub open spec fn spec_message(self) -> Seq<char> {
        match self {
            StructuralError::NotAnArray => "The cbor data is not an array"@,
            StructuralError::ProtectedHeadersNotBytes => "Protected headers is not a byte value"@,
            StructuralError::ProtectedHeadersNotDecodable => "Could't parse protected headers"@,
            StructuralError::InvalidProtectedHeaders => "Protected headers is not a valid map"@,
            StructuralError::InvalidUnprotectedHeaders => "Unprotected headers is not a valid map"@,
            StructuralError::PayloadNotBytes => "Payload is not an byte value"@,
            StructuralError::PayloadNotDecodable => "Payload is not cbor encoded"@,
            StructuralError::SignatureNotBytes => "No bytes found in signature"@,
        }
    }

    /// A sentence that describes the error.
    pub fn message(&self) -> (r: String)
        ensures
            r@ == self.spec_message(),
    {
        match self {
            StructuralError::NotAnArray => String::from_str("The cbor data is not an array"),
            StructuralError::ProtectedHeadersNotBytes => String::from_str(
                "Protected headers is not a byte value",
            ),
            StructuralError::ProtectedHeadersNotDecodable => String::from_str(
                "Could't parse protected headers",
            ),
            StructuralError::InvalidProtectedHeaders => String::from_str(
                "Protected headers is not a valid map",
            ),
            StructuralError::InvalidUnprotectedHeaders => String::from_str(
                "Unprotected headers is not a valid map",
            ),
            StructuralError::PayloadNotBytes => String::from_str("Payload is not an byte value"),
            StructuralError::PayloadNotDecodable => String::from_str("Payload is not cbor encoded"),
            StructuralError::SignatureNotBytes => String::from_str("No bytes found in signature"),
        }
    }
}

/// The protected headers: the bytes as received and the map they encode.
pub struct ProtectedHeaders {
    pub raw: Vec<u8>,
    pub data: Headers,
}

/// The payload: the bytes as received and the item they encode.
#[derive(Debug, PartialEq)]
pub struct Payload {
    pub raw: Vec<u8>,
    pub data: CborValue,
}

/// A single-signed COSE message.
pub struct CoseSingleSigned {
    protected_headers: ProtectedHeaders,
    unprotected_headers: Headers,
    payload: Payload,
    signature: Vec<u8>,
}

/// What a single-signed message holds, as mathematical values.
pub struct CoseView {
    pub protected_raw: Seq<u8>,
    pub protected: Seq<(CborValue, CborValue)>,
    pub unprotected: Seq<(CborValue, CborValue)>,
    pub payload_raw: Seq<u8>,
    pub payload: CborValue,
    pub signature: Seq<u8>,
}

impl View for CoseSingleSigned {
    type V = CoseView;

    closed spec fn view(&self) -> CoseView {
        CoseView {
            protected_raw: self.protected_headers.raw@,
            protected: self.protected_headers.data@,
            unprotected: self.unprotected_headers@,
            payload_raw: self.payload.raw@,
            payload: self.payload.data,
            signature: self.signature@,
        }
    }
}

/// The protected header map that the decoded protected bytes stand for: an
/// empty map for null, the map itself for a map.
pub open spec fn protected_map(decoded: Option<CborValue>) -> Result<
    Seq<(CborValue, CborValue)>,
    StructuralError,
> {
    match decoded {
        None => Err(StructuralError::ProtectedHeadersNotDecodable),
        Some(CborValue::Null) => Ok(Seq::empty()),
        Some(CborValue::Entries(m)) => Ok(m@),
        Some(_) => Err(StructuralError::InvalidProtectedHeaders),
    }
}

/// The payload item that the decoded payload bytes stand for.
pub open spec fn payload_item(decoded: Option<CborValue>) -> Result<CborValue, StructuralError> {
    match decoded {
        None => Err(StructuralError::PayloadNotDecodable),
        Some(v) => Ok(v),
    }
}

/// The message that four items make, or the first error met in the order
/// protected headers, payload, unprotected headers, signature.
pub open spec fn envelope_of_items(items: Seq<CborValue>) -> Result<CoseView, StructuralError> {
    match items[0] {
        CborValue::Bytes(p) => match protected_map(cbor_decoded(p@)) {
            Err(e) => Err(e),
            Ok(protected) => match items[2] {
                CborValue::Bytes(y) => match payload_item(cbor_decoded(y@)) {
                    Err(e) => Err(e),
                    Ok(payload) => match items[1] {
                        CborValue::Entries(u) => match items[3] {
                            CborValue::Bytes(s) => Ok(
                                CoseView {
                                    protected_raw: p@,
                                    protected,
                                    unprotected: u@,
                                    payload_raw: y@,
                                    payload,
                                    signature: s@,
                                },
                            ),
                            _ => Err(StructuralError::SignatureNotBytes),
                        },
                        _ => Err(StructuralError::InvalidUnprotectedHeaders),
                    },
                },
                _ => Err(StructuralError::PayloadNotBytes),
            },
        },
        _ => Err(StructuralError::ProtectedHeadersNotBytes),
    }
}

/// The message that a decoded item makes: after its tags, an array of four.
pub open spec fn envelope(v: CborValue) -> Result<CoseView, StructuralError> {
    match untagged(v) {
        CborValue::Array(items) => if items@.len() == 4 {
            envelope_of_items(items@)
        } else {
            Err(StructuralError::NotAnArray)
        },
        _ => Err(StructuralError::NotAnArray),
    }
}

/// Whether a header label is the integer `label`.
pub open spec fn is_label(key: CborValue, label: int) -> bool {
    key matches CborValue::Integer(n) && n == label
}

/// The value of the first header whose label is `label`.
pub open spec fn find_header(headers: Seq<(CborValue, CborValue)>, label: int) -> Option<CborValue>
    decreases headers.len(),
{
    if headers.len() == 0 {
        None
    } else if is_label(headers[0].0, label) {
        Some(headers[0].1)
    } else {
        find_header(headers.drop_first(), label)
    }
}

/// A header's value, taken from the protected headers where it stands there,
/// else from the unprotected ones.
pub open spec fn resolve(
    protected: Seq<(CborValue, CborValue)>,
    unprotected: Seq<(CborValue, CborValue)>,
    label: int,
) -> Option<CborValue> {
    match find_header(protected, label) {
        Some(v) => Some(v),
        None => find_header(unprotected, label),
    }
}

/// The key identifier, in base64, where the resolved value is a byte string.
pub open spec fn kid_of(c: CoseView) -> Option<Seq<char>> {
    match resolve(c.protected, c.unprotected, 4) {
        Some(CborValue::Bytes(b)) => Some(base64_encoded(b@)),
        _ => None,
    }
}

/// The algorithm, where the resolved value is an integer.
pub open spec fn alg_of(c: CoseView) -> Option<i128> {
    match resolve(c.protected, c.unprotected, 1) {
        Some(CborValue::Integer(n)) => Some(n),
        _ => None,
    }
}

/// The context string of a single-signer signature structure.
pub open spec fn signature1_context() -> Seq<char> {
    "Signature1"@
}

/// The bytes that the signer signed: the signature structure over the raw
/// protected and payload bytes, with no external data.
pub open spec fn signing_input_of(c: CoseView) -> Result<Seq<u8>, Seq<char>> {
    sig_structure_encoding(signature1_context(), c.protected_raw, Seq::empty(), c.payload_raw)
}

/// Common COSE header parameters.
pub enum Header {
    Alg,
    Kid,
}

impl Header {
    pub open spec fn spec_label(&self) -> u8 {
        match self {
            Header::Alg => 1,
            Header::Kid => 4,
        }
    }

    /// The label of the header.
    pub fn label(&self) -> (r: u8)
        ensures
            r == self.spec_label(),
    {
        match *self {
            Header::Alg => 1,
            Header::Kid => 4,
        }
    }
}

/// The value of the first header whose label is that of `header_label`.
pub fn header(headers: &[(CborValue, CborValue)], header_label: Header) -> (r: Option<&CborValue>)
    ensures
        match r {
            Some(v) => find_header(headers@, header_label.spec_label() as int) == Some(*v),
            None => find_header(headers@, header_label.spec_label() as int) is None,
        },
{
    let label = header_label.label();
    let ghost l = label as int;
    let mut i: usize = 0;
    assert(headers@.skip(0) =~= headers@);
    while i < headers.len()
        invariant
            i <= headers@.len(),
            l == label as int,
            label == header_label.spec_label(),
            find_header(headers@, l) == find_header(headers@.skip(i as int), l),
        decreases headers@.len() - i,
    {
        assert(headers@.skip(i as int).drop_first() =~= headers@.skip(i + 1));
        let matches = match &headers[i].0 {
            CborValue::Integer(n) => *n == label as i128,
            _ => false,
        };
        assert(headers@.skip(i as int)[0] == headers@[i as int]);
        assert(matches == is_label(headers@[i as int].0, l));
        if matches {
            return Some(&headers[i].1);
        }
        i = i + 1;
    }
    None
}

impl ProtectedHeaders {
    /// Protected headers from their raw bytes and what those bytes decode to.
    pub fn from_decoded(raw: Vec<u8>, decoded: Option<CborValue>) -> (r: Result<
        ProtectedHeaders,
        StructuralError,
    >)
        ensures
            match r {
                Ok(h) => h.raw@ == raw@ && protected_map(decoded) == Ok::<
                    Seq<(CborValue, CborValue)>,
                    StructuralError,
                >(h.data@),
                Err(e) => protected_map(decoded) == Err::<
                    Seq<(CborValue, CborValue)>,
                    StructuralError,
                >(e),
            },
    {
        match decoded {
            None => Err(StructuralError::ProtectedHeadersNotDecodable),
            Some(CborValue::Null) => Ok(ProtectedHeaders { raw, data: Vec::new() }),
            Some(CborValue::Entries(map)) => Ok(ProtectedHeaders { raw, data: map }),
            Some(_) => Err(StructuralError::InvalidProtectedHeaders),
        }
    }

    /// Protected headers from the item that carries them, a byte string.
    pub fn try_from(value: CborValue) -> (r: Result<ProtectedHeaders, StructuralError>)
        ensures
            match value {
                CborValue::Bytes(b) => match r {
                    Ok(h) => h.raw@ == b@ && protected_map(cbor_decoded(b@)) == Ok::<
                        Seq<(CborValue, CborValue)>,
                        StructuralError,
                    >(h.data@),
                    Err(e) => protected_map(cbor_decoded(b@)) == Err::<
                        Seq<(CborValue, CborValue)>,
                        StructuralError,
                    >(e),
                },
                _ => r == Err::<ProtectedHeaders, StructuralError>(
                    StructuralError::ProtectedHeadersNotBytes,
                ),
            },
    {
        match value {
            CborValue::Bytes(bytes) => {
                let decoded = cbor_decode(bytes.as_slice());
                ProtectedHeaders::from_decoded(bytes, decoded)
            },
            _ => Err(StructuralError::ProtectedHeadersNotBytes),
        }
    }
}

impl Payload {
    /// A payload from its raw bytes and what those bytes decode to.
    pub fn from_decoded(raw: Vec<u8>, decoded: Option<CborValue>) -> (r: Result<
        Payload,
        StructuralError,
    >)
        ensures
            match r {
                Ok(p) => p.raw@ == raw@ && payload_item(decoded) == Ok::<CborValue, StructuralError>(
                    p.data,
                ),
                Err(e) => payload_item(decoded) == Err::<CborValue, StructuralError>(e),
            },
    {
        match decoded {
            Some(data) => Ok(Payload { raw, data }),
            None => Err(StructuralError::PayloadNotDecodable),
        }
    }

    /// A payload from the item that carries it, a byte string.
    pub fn try_from(value: CborValue) -> (r: Result<Payload, StructuralError>)
        ensures
            match value {
                CborValue::Bytes(b) => match r {
                    Ok(p) => p.raw@ == b@ && payload_item(cbor_decoded(b@)) == Ok::<
                        CborValue,
                        StructuralError,
                    >(p.data),
                    Err(e) => payload_item(cbor_decoded(b@)) == Err::<CborValue, StructuralError>(
                        e,
                    ),
                },
                _ => r == Err::<Payload, StructuralError>(StructuralError::PayloadNotBytes),
            },
    {
        match value {
            CborValue::Bytes(bytes) => {
                let decoded = cbor_decode(bytes.as_slice());
                Payload::from_decoded(bytes, decoded)
            },
            _ => Err(StructuralError::PayloadNotBytes),
        }
    }
}

impl CoseSingleSigned {
    /// A message from its parts.
    pub fn new(
        protected_headers: ProtectedHeaders,
        unprotected_headers: Headers,
        payload: Payload,
        signature: Vec<u8>,
    ) -> (r: CoseSingleSigned)
        ensures
            r@.protected_raw == protected_headers.raw@,
            r@.protected == protected_headers.data@,
            r@.unprotected == unprotected_headers@,
            r@.payload_raw == payload.raw@,
            r@.payload == payload.data,
            r@.signature == signature@,
    {
        CoseSingleSigned { protected_headers, unprotected_headers, payload, signature }
    }

    /// Decodes a single-signed message from a decoded CBOR item: an array of
    /// four, possibly tagged. No part of a message comes back on failure.
    pub fn try_from(value: CborValue) -> (r: Result<CoseSingleSigned, StructuralError>)
        ensures
            match r {
                Ok(c) => envelope(value) == Ok::<CoseView, StructuralError>(c@),
                Err(e) => envelope(value) == Err::<CoseView, StructuralError>(e),
            },
    {
        let mut items = match value.untag() {
            CborValue::Array(items) => items,
            _ => return Err(StructuralError::NotAnArray),
        };
        if items.len() != 4 {
            return Err(StructuralError::NotAnArray);
        }
        let ghost all = items@;
        let signature_item = items.pop().unwrap();
        let payload_item = items.pop().unwrap();
        let unprotected_item = items.pop().unwrap();
        let protected_item = items.pop().unwrap();
        assert(all[0] == protected_item && all[1] == unprotected_item && all[2] == payload_item
            && all[3] == signature_item);
        let protected_headers = ProtectedHeaders::try_from(protected_item)?;
        let payload = Payload::try_from(payload_item)?;
        let unprotected_headers = match unprotected_item {
            CborValue::Entries(map) => map,
            _ => return Err(StructuralError::InvalidUnprotectedHeaders),
        };
        let signature = match signature_item {
            CborValue::Bytes(bytes) => bytes,
            _ => return Err(StructuralError::SignatureNotBytes),
        };
        Ok(CoseSingleSigned { protected_headers, unprotected_headers, payload, signature })
    }

    /// The decoded payload.
    pub fn payload(&self) -> (r: &CborValue)
        ensures
            *r == self@.payload,
    {
        &self.payload.data
    }

    /// The signature bytes.
    pub fn signature(&self) -> (r: &[u8])
        ensures
            r@ == self@.signature,
    {
        self.signature.as_slice()
    }

    /// The key identifier in base64, preferring the protected headers.
    pub fn kid(&self) -> (r: Option<String>)
        ensures
            match r {
                Some(s) => kid_of(self@) == Some(s@),
                None => kid_of(self@) is None,
            },
    {
        let mut kid = header(self.protected_headers.data.as_slice(), Header::Kid);
        if kid.is_none() {
            kid = header(self.unprotected_headers.as_slice(), Header::Kid);
        }
        match kid {
            Some(CborValue::Bytes(b)) => Some(base64_encode(b.as_slice())),
            _ => None,
        }
    }

    /// The algorithm, preferring the protected headers; none where the value
    /// found is no integer.
    pub fn alg(&self) -> (r: Option<i128>)
        ensures
            r == alg_of(self@),
    {
        let mut alg = header(self.protected_headers.data.as_slice(), Header::Alg);
        if alg.is_none() {
            alg = header(self.unprotected_headers.as_slice(), Header::Alg);
        }
        match alg {
            Some(CborValue::Integer(n)) => Some(*n),
            _ => None,
        }
    }

    /// The signature structure: the context, the raw protected bytes, empty
    /// external data and the raw payload bytes, all as received.
    pub fn to_be_signed(&self) -> (r: [CborValue; 4])
        ensures
            r[0] matches CborValue::Text(t) && t@ == signature1_context(),
            r[1] matches CborValue::Bytes(p) && p@ == self@.protected_raw,
            r[2] matches CborValue::Bytes(a) && a@.len() == 0,
            r[3] matches CborValue::Bytes(y) && y@ == self@.payload_raw,
    {
        [
            CborValue::Text(String::from_str("Signature1")),
            CborValue::Bytes(self.protected_headers.raw.clone()),
            CborValue::Bytes(Vec::new()),
            CborValue::Bytes(self.payload.raw.clone()),
        ]
    }

    /// The encoded signature structure: the exact bytes that the signer signed.
    pub fn signing_input(&self) -> (r: Result<Vec<u8>, String>)
        ensures
            bytes_outcome(r) == signing_input_of(self@),
    {
        let empty: Vec<u8> = Vec::new();
        encode_sig_structure(
            "Signature1",
            self.protected_headers.raw.as_slice(),
            empty.as_slice(),
            self.payload.raw.as_slice(),
        )
    }

    /// The message as its parts: protected bytes and map, unprotected map,
    /// payload bytes and item, signature.
    pub fn into_parts(self) -> (r: (ProtectedHeaders, Headers, Payload, Vec<u8>))
        ensures
            r.0.raw@ == self@.protected_raw,
            r.0.data@ == self@.protected,
            r.1@ == self@.unprotected,
            r.2.raw@ == self@.payload_raw,
            r.2.data == self@.payload,
            r.3@ == self@.signature,
    {
        (self.protected_headers, self.unprotected_headers, self.payload, self.signature)
    }
}

/// Four items, the first, third and fourth byte strings and the second a map,
/// make a message whenever the first decodes to a map or to null and the
/// third decodes at all.
pub proof fn lemma_well_formed_decodes(v: CborValue)
    requires
        untagged(v) matches CborValue::Array(items) && items@.len() == 4 && {
            &&& items@[0] matches CborValue::Bytes(p) && (cbor_decoded(p@) matches Some(
                CborValue::Null,
            ) || cbor_decoded(p@) matches Some(CborValue::Entries(_)))
            &&& items@[1] is Entries
            &&& items@[2] matches CborValue::Bytes(y) && cbor_decoded(y@) is Some
            &&& items@[3] is Bytes
        },
    ensures
        envelope(v) is Ok,
{
}

/// Protected bytes that decode to null give the empty header map, not an error.
pub proof fn lemma_null_protected_is_empty(raw: Seq<u8>)
    requires
        cbor_decoded(raw) == Some(CborValue::Null),
    ensures
        protected_map(cbor_decoded(raw)) == Ok::<Seq<(CborValue, CborValue)>, StructuralError>(
            Seq::empty(),
        ),
{
}

/// A label in the protected headers wins over the same label in the
/// unprotected ones.
pub proof fn lemma_protected_precedence(
    protected: Seq<(CborValue, CborValue)>,
    unprotected: Seq<(CborValue, CborValue)>,
    label: int,
    p: CborValue,
    u: CborValue,
)
    requires
        find_header(protected, label) == Some(p),
        find_header(unprotected, label) == Some(u),
    ensures
        resolve(protected, unprotected, label) == Some(p),
{
}

/// The key identifier is the standard padded base64 encoding of the byte
/// string that resolves for the key identifier label.
pub proof fn lemma_kid_is_base64(c: CoseView, x: Seq<u8>)
    requires
        resolve(c.protected, c.unprotected, 4) matches Some(CborValue::Bytes(b)) && b@ == x,
    ensures
        kid_of(c) == Some(base64_encoded(x)),
{
}

/// The bytes to verify are built from the protected and payload byte strings
/// exactly as they stood in the decoded message, not from a re-encoding of
/// what they decode to.
pub proof fn lemma_signing_input_uses_raw_bytes(v: CborValue, c: CoseView)
    requires
        envelope(v) == Ok::<CoseView, StructuralError>(c),
    ensures
        untagged(v) matches CborValue::Array(items) && items@[0] matches CborValue::Bytes(p)
            && items@[2] matches CborValue::Bytes(y) && signing_input_of(c)
            == sig_structure_encoding(signature1_context(), p@, Seq::empty(), y@),
{
}

} // verus!
