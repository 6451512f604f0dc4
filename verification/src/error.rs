use vstd::prelude::*;
use vstd::string::StringExecFns;

verus! {

/// What can go wrong when a request is signed and sent, or verified. An error that came
/// from elsewhere is held as its message.
#[derive(Debug)]
pub enum Error {
    /// The digest of a body could not be made.
    Digest,
    /// A document could not be written or read as JSON.
    Json(String),
    /// A key could not be read, or a signature not made or checked.
    Signature(String),
    /// The signature is not that of the actor with this URI.
    SignatureFail(String),
    /// A request could not be put together.
    HttpReq(String),
    /// A request could not be carried out.
    Http(String),
    /// The URI has no host.
    InvalidUri,
    /// The remote answered with a status that is no success; the body of the answer.
    Response(String),
}

impl Clone for Error {
    fn clone(&self) -> (r: Self)
        ensures
            r == *self,
    {
        match self {
            Error::Digest => Error::Digest,
            Error::Json(m) => Error::Json(m.clone()),
            Error::Signature(m) => Error::Signature(m.clone()),
            Error::SignatureFail(m) => Error::SignatureFail(m.clone()),
            Error::HttpReq(m) => Error::HttpReq(m.clone()),
            Error::Http(m) => Error::Http(m.clone()),
            Error::InvalidUri => Error::InvalidUri,
            Error::Response(m) => Error::Response(m.clone()),
        }
    }
}

impl Error {
    /// The error in words.
    pub open spec fn description(self) -> Seq<char> {
        match self {
            Error::Digest => "HTTP Digest generation error"@,
            Error::Json(_) => "JSON encoding error"@,
            Error::Signature(_) => "Signature error"@,
            Error::SignatureFail(_) => "Signature verification failure"@,
            Error::HttpReq(_) => "HTTP request error"@,
            Error::Http(_) => "HTTP client error"@,
            Error::InvalidUri => "Invalid URI"@,
            Error::Response(_) => "Error response from remote"@,
        }
    }

    /// The error in words.
    pub fn message(&self) -> (r: String)
        ensures
            r@ == self.description(),
    {
        match self {
            Error::Digest => String::from_str("HTTP Digest generation error"),
            Error::Json(_) => String::from_str("JSON encoding error"),
            Error::Signature(_) => String::from_str("Signature error"),
            Error::SignatureFail(_) => String::from_str("Signature verification failure"),
            Error::HttpReq(_) => String::from_str("HTTP request error"),
            Error::Http(_) => String::from_str("HTTP client error"),
            Error::InvalidUri => String::from_str("Invalid URI"),
            Error::Response(_) => String::from_str("Error response from remote"),
        }
    }
}

/// A request that is turned away, with the HTTP status and the text of the answer.
#[derive(Debug)]
pub struct Rejection {
    pub status: u16,
    pub message: String,
}

impl Rejection {
    /// Whether this is the rejection with that status and that text.
    pub open spec fn says(self, status: int, message: Seq<char>) -> bool {
        self.status == status && self.message@ == message
    }
}

/// Whether the result is the rejection with that status and that text.
pub open spec fn rejects<T>(r: Result<T, Rejection>, status: int, message: Seq<char>) -> bool {
    r matches Err(rejection) && rejection.says(status, message)
}

/// The rejection with the status and the text.
pub fn refuse<T>(status: u16, message: &str) -> (r: Result<T, Rejection>)
    ensures
        rejects(r, status as int, message@),
{
    Err(Rejection { status, message: String::from_str(message) })
}

/// The rejection with the status and `prefix` followed by `detail` as its text.
pub fn reject<T>(status: u16, prefix: &str, detail: &str) -> (r: Result<T, Rejection>)
    ensures
        rejects(r, status as int, prefix@ + detail@),
{
    let mut message = String::from_str(prefix);
    message.append(detail);
    Err(Rejection { status, message })
}

} // verus!
