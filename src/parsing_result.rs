use crate::cbor::CborValue;
use vstd::prelude::*;

verus! {

/// Everything learnt from reading and verifying one certificate.
///
/// Parsing and signature checking are reported apart: `successful` says that
/// the data could be read, `signature_valid` that its signer was confirmed.
/// `error` holds the message of the step that failed, if any.
pub struct ParsingResult {
    /// The algorithm used to sign the certificate.
    pub algorithm: i128,
    /// The key identifier of the issuer, in base64.
    pub kid: String,
    pub successful: bool,
    pub error: String,
    /// The payload, where it could be read.
    pub data: Option<CborValue>,
    pub signature_valid: bool,
}

/// A result as mathematical values.
pub struct ResultView {
    pub algorithm: i128,
    pub kid: Seq<char>,
    pub successful: bool,
    pub error: Seq<char>,
    pub data: Option<CborValue>,
    pub signature_valid: bool,
}

impl View for ParsingResult {
    type V = ResultView;

    open spec fn view(&self) -> ResultView {
        ResultView {
            algorithm: self.algorithm,
            kid: self.kid@,
            successful: self.successful,
            error: self.error@,
            data: self.data,
            signature_valid: self.signature_valid,
        }
    }
}

/// Builds a result step by step.
pub struct ParsingResultBuilder {
    pub successful: bool,
    pub error: String,
    pub data: Option<CborValue>,
    pub signature_valid: bool,
    pub kid: String,
    pub algorithm: i128,
}

impl View for ParsingResultBuilder {
    type V = ResultView;

    open spec fn view(&self) -> ResultView {
        ResultView {
            algorithm: self.algorithm,
            kid: self.kid@,
            successful: self.successful,
            error: self.error@,
            data: self.data,
            signature_valid: self.signature_valid,
        }
    }
}

/// The result that nothing has been learnt into yet.
pub open spec fn initial_result() -> ResultView {
    ResultView {
        algorithm: 0,
        kid: Seq::empty(),
        successful: false,
        error: Seq::empty(),
        data: None,
        signature_valid: false,
    }
}

impl ParsingResultBuilder {
    /// A builder for an unsuccessful result with no data.
    pub fn new() -> (r: ParsingResultBuilder)
        ensures
            r@ == initial_result(),
    {
        ParsingResultBuilder {
            successful: false,
            error: String::new(),
            data: None,
            signature_valid: false,
            kid: String::new(),
            algorithm: 0,
        }
    }

    /// Marks the data as read.
    pub fn success(self) -> (r: ParsingResultBuilder)
        ensures
            r@ == (ResultView { successful: true, ..self@ }),
    {
        let mut b = self;
        b.successful = true;
        b
    }

    /// Marks the data as unreadable, with a message.
    pub fn fail_with_error(self, message: &str) -> (r: ParsingResultBuilder)
        ensures
            r@ == (ResultView { successful: false, error: message@, ..self@ }),
    {
        let mut b = self;
        b.successful = false;
        b.error = message.to_owned();
        b
    }

    /// Marks the signature as unconfirmed, with a message.
    pub fn signature_error(self, message: &str) -> (r: ParsingResultBuilder)
        ensures
            r@ == (ResultView { signature_valid: false, error: message@, ..self@ }),
    {
        let mut b = self;
        b.signature_valid = false;
        b.error = message.to_owned();
        b
    }

    /// Sets the payload.
    pub fn data(self, data: CborValue) -> (r: ParsingResultBuilder)
        ensures
            r@ == (ResultView { data: Some(data), ..self@ }),
    {
        let mut b = self;
        b.data = Some(data);
        b
    }

    /// Sets whether the signature was confirmed.
    pub fn signature_valid(self, valid: bool) -> (r: ParsingResultBuilder)
        ensures
            r@ == (ResultView { signature_valid: valid, ..self@ }),
    {
        let mut b = self;
        b.signature_valid = valid;
        b
    }

    /// Sets the key identifier.
    pub fn kid(self, kid: &str) -> (r: ParsingResultBuilder)
        ensures
            r@ == (ResultView { kid: kid@, ..self@ }),
    {
        let mut b = self;
        b.kid = kid.to_owned();
        b
    }

    /// Sets the algorithm.
    pub fn alg(self, algorithm: i128) -> (r: ParsingResultBuilder)
        ensures
            r@ == (ResultView { algorithm, ..self@ }),
    {
        let mut b = self;
        b.algorithm = algorithm;
        b
    }

    /// The result built so far.
    pub fn build(self) -> (r: ParsingResult)
        ensures
            r@ == self@,
    {
        ParsingResult {
            successful: self.successful,
            error: self.error,
            data: self.data,
            signature_valid: self.signature_valid,
            kid: self.kid,
            algorithm: self.algorithm,
        }
    }
}

} // verus!
