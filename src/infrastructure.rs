//! The two kinds of failure that a search reports.
use vstd::prelude::*;
use vstd::string::*;

verus! {

/// Why a search failed.
#[derive(Debug)]
pub enum InfrastructureError {
    /// The upstream response did not decode into a search result; the text
    /// says why.
    Parse(String),
    /// Any other failure: transport, construction, or an error payload sent
    /// by the upstream service.
    Unknown(String),
}

pub type InfrastructureResult<T> = Result<T, InfrastructureError>;

/// The text that describes an error to an operator.
pub open spec fn error_text(e: InfrastructureError) -> Seq<char> {
    match e {
        InfrastructureError::Parse(m) => "Failed to parse data from infrastructure ("@ + m@ + ")"@,
        InfrastructureError::Unknown(m) => m@,
    }
}

impl InfrastructureError {
    /// Describes the error to an operator.
    pub fn to_string(&self) -> (r: String)
        ensures
            r@ == error_text(*self),
    {
        match self {
            InfrastructureError::Parse(m) => {
                let mut t = String::from_str("Failed to parse data from infrastructure (");
                t.append(m.as_str());
                t.append(")");
                t
            },
            InfrastructureError::Unknown(m) => m.clone(),
        }
    }
}

} // verus!
