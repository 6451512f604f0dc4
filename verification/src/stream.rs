use vstd::prelude::*;
use vstd::string::StringExecFns;
use crate::text::same_text;

verus! {

/// The number of posts that wait between the streams and the relay.
pub const CHANNEL_CAPACITY: usize = 1024;

/// The seconds between the end of a stream and the next attempt to open it.
pub const RECONNECT_DELAY: u64 = 1;

/// Why a stream could not be opened.
#[derive(Debug)]
pub enum StreamError {
    /// The request failed; its error in words.
    Http(String),
    /// The answer had another status than 200.
    HttpStatus(u16),
    /// The answer is no event stream.
    InvalidContentType,
}

/// `https://{host}/api/v1/streaming/public`
pub open spec fn stream_url_of(host: Seq<char>) -> Seq<char> {
    "https://"@ + host + "/api/v1/streaming/public"@
}

/// The URL of the public stream of a host.
pub fn stream_url(host: &str) -> (r: String)
    ensures
        r@ == stream_url_of(host@),
{
    let mut url = String::from_str("https://");
    url.append(host);
    url.append("/api/v1/streaming/public");
    url
}

/// Whether the answer to the request for a stream is one: its status is 200 and its content
/// type `text/event-stream`. The status is looked at first.
pub fn check_response(status: u16, content_type: Option<&str>) -> (r: Result<(), StreamError>)
    ensures
        status != 200 ==> r == Err::<(), StreamError>(StreamError::HttpStatus(status)),
        status == 200 && !(content_type matches Some(ct) && ct@ == "text/event-stream"@) ==> r matches Err(
            StreamError::InvalidContentType,
        ),
        status == 200 && (content_type matches Some(ct) && ct@ == "text/event-stream"@) ==> r is Ok,
{
    if status != 200 {
        return Err(StreamError::HttpStatus(status));
    }
    match content_type {
        Some(ct) => if same_text(ct, "text/event-stream") {
            Ok(())
        } else {
            Err(StreamError::InvalidContentType)
        },
        None => Err(StreamError::InvalidContentType),
    }
}

/// What is forwarded of an event of the stream: the data of an `update`, nothing of any
/// other event.
pub fn forwarded(event: &str, data: String) -> (r: Option<String>)
    ensures
        event@ == "update"@ ==> r == Some(data),
        event@ != "update"@ ==> r is None,
{
    if same_text(event, "update") {
        Some(data)
    } else {
        None
    }
}

} // verus!
