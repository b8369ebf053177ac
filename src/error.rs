use vstd::prelude::*;
use vstd::string::StringExecFns;

verus! {

/// Why a submitted garden failed its signature check.
#[derive(Debug, Clone, Copy, PartialEq, Eq, Structural)]
pub enum SignatureError {
    /// The plot holds plants but no signature came with it.
    NotFound,
    /// A signature came, but it is not the Base64 text of eight bytes.
    Malformed,
    /// The signature is well formed but is not the one of this plot.
    Mismatch,
}

pub open spec fn signature_message(e: SignatureError) -> Seq<char> {
    match e {
        SignatureError::NotFound =>
            "Expected signature was missing. Do not modify or omit the `nature_approved` field."@,
        SignatureError::Malformed =>
            "Signature was found, but not in the proper form. Has it been modified?"@,
        SignatureError::Mismatch =>
            "Signature was invalid. Have the plants been modified? Do not modify them; nature is always right."@,
    }
}

impl SignatureError {
    /// The explanation shown to a client whose garden was rejected.
    pub fn message(&self) -> (r: String)
        ensures
            r@ == signature_message(*self),
    {
        match self {
            SignatureError::NotFound => String::from_str(
                "Expected signature was missing. Do not modify or omit the `nature_approved` field.",
            ),
            SignatureError::Malformed => String::from_str(
                "Signature was found, but not in the proper form. Has it been modified?",
            ),
            SignatureError::Mismatch => String::from_str(
                "Signature was invalid. Have the plants been modified? Do not modify them; nature is always right.",
            ),
        }
    }
}

/// Every way a request on a garden can fail.
#[derive(Debug, Clone)]
pub enum CotyledonError {
    /// The submitted garden is not the one this server signed.
    InvalidSignature(SignatureError),
    /// The requested plant type is not in the catalog; holds the explanation.
    InvalidPlantType(String),
    /// A fault of the environment, such as a clock that reads before the epoch.
    InternalError(String),
}

pub open spec fn error_message(e: CotyledonError) -> Seq<char> {
    match e {
        CotyledonError::InvalidSignature(s) => signature_message(s),
        CotyledonError::InvalidPlantType(x) => "Invalid plant type, '"@ + x@ + "'"@,
        CotyledonError::InternalError(x) => "InternalError, "@ + x@,
    }
}

impl CotyledonError {
    /// The human-readable text of the error.
    pub fn message(&self) -> (r: String)
        ensures
            r@ == error_message(*self),
    {
        match self {
            CotyledonError::InvalidSignature(s) => s.message(),
            CotyledonError::InvalidPlantType(x) => {
                let mut r = String::from_str("Invalid plant type, '");
                r.append(x.as_str());
                r.append("'");
                r
            },
            CotyledonError::InternalError(x) => {
                let mut r = String::from_str("InternalError, ");
                r.append(x.as_str());
                r
            },
        }
    }
}

} // verus!
