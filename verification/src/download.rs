//! What a download of one object from storage decides, apart from the
//! transfer itself: what a response's status asks for, and when the object
//! was last modified.

use vstd::prelude::*;

verus! {

/// An object fetched from a bucket.
#[derive(Clone, Debug, PartialEq, Eq)]
pub struct DownloadedBucketObject {
    /// The key of the object within the bucket.
    pub key: String,
    /// When the object was last modified, in milliseconds since
    /// 1 January 1970 00:00 GMT, where the response said so.
    pub last_modified: Option<i64>,
    /// The object's bytes.
    pub data: Vec<u8>,
}

/// What to do with a response, by its status.
#[derive(Clone, Copy, Debug, PartialEq, Eq, Structural)]
pub enum ResponseStep {
    /// The object does not exist.
    ObjectNotFound,
    /// The body is the object: read it.
    ReadObject,
    /// The request failed: the body is the reason.
    ReadFailure,
}

/// What the status code of a response asks for.
pub open spec fn spec_response_step(status: u16) -> ResponseStep {
    if status == 404 {
        ResponseStep::ObjectNotFound
    } else if status == 200 {
        ResponseStep::ReadObject
    } else {
        ResponseStep::ReadFailure
    }
}

/// Decides from the status code of a response what to do with it.
pub fn response_step(status: u16) -> (r: ResponseStep)
    ensures
        r == spec_response_step(status),
{
    if status == 404 {
        ResponseStep::ObjectNotFound
    } else if status == 200 {
        ResponseStep::ReadObject
    } else {
        ResponseStep::ReadFailure
    }
}

/// The instant that a date in the format of RFC 2822 names, in
/// milliseconds since 1 January 1970 00:00 GMT, or `None` where the text is
/// no such date.
pub uninterp spec fn rfc2822_millis(text: Seq<char>) -> Option<i64>;

/// `chrono::DateTime::parse_from_rfc2822`, with the instant handed out as
/// milliseconds since the epoch. The parser reads the offset from the text
/// itself, so the instant is a function of the text alone.
#[verifier::external_body]
fn parse_rfc2822(text: &str) -> (r: Option<i64>)
    ensures
        r == rfc2822_millis(text@),
{
    match chrono::DateTime::parse_from_rfc2822(text) {
        Ok(date_time) => Some(date_time.timestamp_millis()),
        Err(_) => None,
    }
}

/// When an object was last modified, from the value of the response's
/// `Last-Modified` header: nothing where the header is absent or is no
/// date.
pub fn get_last_modified_header(header: Option<&str>) -> (r: Option<i64>)
    ensures
        r == match header {
            None => None,
            Some(text) => rfc2822_millis(text@),
        },
{
    match header {
        None => None,
        Some(text) => parse_rfc2822(text),
    }
}

/// Puts a fetched object together.
pub fn downloaded_object(key: String, header: Option<&str>, data: Vec<u8>) -> (r:
    DownloadedBucketObject)
    ensures
        r.key == key,
        r.data == data,
        r.last_modified == match header {
            None => None,
            Some(text) => rfc2822_millis(text@),
        },
{
    DownloadedBucketObject { key, last_modified: get_last_modified_header(header), data }
}

} // verus!
