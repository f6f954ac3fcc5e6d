use vstd::prelude::*;
use vstd::string::StringExecFns;

verus! {

/// The single failure type of the library.
///
/// A call against the API fails either because the transport layer failed,
/// because the response body did not deserialize into the expected record,
/// or because the response envelope lacked the expected resource-type key.
#[derive(Clone, Debug)]
pub enum ApiError {
    /// The HTTP round trip itself failed (connection, timeout, non-JSON body).
    Transport(String),
    /// The response body did not match the shape of the requested record.
    Deserialization(String),
    /// The response envelope did not carry the expected resource-type key.
    MissingEnvelopeKey(String),
}

pub type ApiResult<T> = Result<T, ApiError>;

/// The text that `ApiError::message` returns for each failure.
pub open spec fn spec_message(e: ApiError) -> Seq<char> {
    match e {
        ApiError::Transport(m) => "transport error: "@ + m@,
        ApiError::Deserialization(m) => "deserialization error: "@ + m@,
        ApiError::MissingEnvelopeKey(k) => "response envelope is missing the key "@ + k@,
    }
}

impl ApiError {
    /// A human-readable description of the failure.
    pub fn message(&self) -> (r: String)
        ensures
            r@ == spec_message(*self),
    {
        match self {
            ApiError::Transport(m) => String::from_str("transport error: ").concat(m.as_str()),
            ApiError::Deserialization(m) => String::from_str("deserialization error: ").concat(
                m.as_str(),
            ),
            ApiError::MissingEnvelopeKey(k) => String::from_str(
                "response envelope is missing the key ",
            ).concat(k.as_str()),
        }
    }
}

} // verus!
