use ciborium::value::Value;
use vstd::prelude::*;

verus! {

/// A decoded CBOR data item.
#[derive(Debug, PartialEq)]
pub enum CborValue {
    Integer(i128),
    Bytes(Vec<u8>),
    /// The IEEE 754 bit pattern of a floating-point item, in double precision.
    Float(u64),
    Text(String),
    Bool(bool),
    Null,
    Tag(u64, Box<CborValue>),
    Array(Vec<CborValue>),
    /// A map, as its key/value pairs in the order of the encoding.
    Entries(Vec<(CborValue, CborValue)>),
}

#[verifier::external_type_specification]
#[verifier::external_body]
pub struct ExCiboriumValue(Value);

/// The data item that the CBOR decoder reads from the front of `bytes`, if any.
pub uninterp spec fn cbor_decoded(bytes: Seq<u8>) -> Option<CborValue>;

/// The item with every tag in front of it removed.
pub open spec fn untagged(v: CborValue) -> CborValue
    decreases v,
{
    match v {
        CborValue::Tag(_, inner) => untagged(*inner),
        _ => v,
    }
}

impl CborValue {
    /// Moves each variant's fields of a ciborium value into the matching variant.
    #[verifier::external_body]
    fn from_ciborium(v: Value) -> CborValue {
        match v {
            Value::Integer(i) => CborValue::Integer(i128::from(i)),
            Value::Bytes(b) => CborValue::Bytes(b),
            Value::Float(x) => CborValue::Float(x.to_bits()),
            Value::Text(t) => CborValue::Text(t),
            Value::Bool(b) => CborValue::Bool(b),
            Value::Tag(t, x) => CborValue::Tag(t, Box::new(CborValue::from_ciborium(*x))),
            Value::Array(a) => CborValue::Array(a.into_iter().map(CborValue::from_ciborium).collect()),
            Value::Map(m) => CborValue::Entries(
                m.into_iter().map(|(k, x)| (CborValue::from_ciborium(k), CborValue::from_ciborium(x))).collect(),
            ),
            // Null, the one variant left; ciborium's enum is open to more.
            _ => CborValue::Null,
        }
    }

    /// Removes every tag in front of the item.
    pub fn untag(self) -> (r: CborValue)
        ensures
            r == untagged(self),
        decreases self,
    {
        match self {
            CborValue::Tag(_, inner) => (*inner).untag(),
            other => other,
        }
    }
}

/// Relies on ciborium::de::from_reader: reads one data item from the front of
/// `bytes`; what it reads depends on the bytes alone.
#[verifier::external_body]
pub fn cbor_decode(bytes: &[u8]) -> (r: Option<CborValue>)
    ensures
        r == cbor_decoded(bytes@),
{
    match ciborium::de::from_reader::<Value, _>(bytes) {
        Ok(v) => Some(CborValue::from_ciborium(v)),
        Err(_) => None,
    }
}

} // verus!
