//! Fetching: which address to ask, and what an answer means.
//!
//! The transport is not here. It takes an address and reports a status and
//! a body, or why it could not; these functions say what to ask for and
//! what to make of the report.

use crate::date::ApodDate;
use crate::media::MediaEntry;
use crate::media::MediaEntryView;
use crate::media::MediaType;
use crate::ApodEntry;
use vstd::prelude::*;
use vstd::string::StringExecFns;
use vstd::utf8::decode_utf8;
use vstd::utf8::valid_utf8;

verus! {

/// The status that says a page does not exist.
pub const STATUS_NOT_FOUND: u16 = 404;

/// How many requests the rate limiter holds ready at most.
pub const RATE_LIMIT_CAPACITY: usize = 1;

/// How many requests the rate limiter adds at a time.
pub const RATE_LIMIT_REFILL: usize = 1;

/// The seconds between two additions to the rate limiter.
pub const RATE_LIMIT_INTERVAL_SECS: u64 = 2;

/// Why a fetch failed.
#[derive(Debug)]
pub enum ClientError {
    Fetch { source: String, url: String },
}

/// Why a fetch failed, as values.
pub struct ClientErrorView {
    pub source: Seq<char>,
    pub url: Seq<char>,
}

impl View for ClientError {
    type V = ClientErrorView;

    open spec fn view(&self) -> ClientErrorView {
        match self {
            ClientError::Fetch { source, url } => ClientErrorView { source: source@, url: url@ },
        }
    }
}

impl ClientError {
    /// The error in words.
    pub fn message(&self) -> (r: String)
        ensures
            r@ == "Failed to fetch URL '"@ + self@.url + "': "@ + self@.source,
    {
        match self {
            ClientError::Fetch { source, url } => {
                let mut r = String::from_str("Failed to fetch URL '");
                r.append(url.as_str());
                r.append("': ");
                r.append(source.as_str());
                r
            },
        }
    }
}

/// Whether a status says that the body is the page asked for: a status
/// from 200 to 299.
pub open spec fn is_success(status: u16) -> bool {
    200 <= status <= 299
}

/// Whether the body of a response with this status is to be read: only
/// that of a success is.
pub fn wants_body(status: u16) -> (r: bool)
    ensures
        r == is_success(status),
{
    200 <= status && status <= 299
}

/// What a status and a body mean: success with the body for a status from
/// 200 to 299, absence for 404, failure with the status for any other.
pub open spec fn response_meaning(status: u16, body: Seq<u8>) -> Result<Option<Seq<u8>>, u16> {
    if status == STATUS_NOT_FOUND {
        Ok(None)
    } else if is_success(status) {
        Ok(Some(body))
    } else {
        Err(status)
    }
}

/// The view of what a response means.
pub open spec fn response_view(r: Result<Option<Vec<u8>>, u16>) -> Result<Option<Seq<u8>>, u16> {
    match r {
        Ok(Some(body)) => Ok(Some(body@)),
        Ok(None) => Ok(None),
        Err(status) => Err(status),
    }
}

/// What a status and a body mean. A page that does not exist is no
/// failure.
pub fn interpret_response(status: u16, body: Vec<u8>) -> (r: Result<Option<Vec<u8>>, u16>)
    ensures
        response_view(r) == response_meaning(status, body@),
{
    if status == STATUS_NOT_FOUND {
        Ok(None)
    } else if wants_body(status) {
        Ok(Some(body))
    } else {
        Err(status)
    }
}

/// The name under which requests are made, for a version of this library.
pub fn user_agent(version: &str) -> (r: String)
    ensures
        r@ == "apodex/"@ + version@ + " (APOD archiving tool)"@,
{
    let mut r = String::from_str("apodex/");
    r.append(version);
    r.append(" (APOD archiving tool)");
    r
}

/// The text that bytes stand for, read as UTF-8 with every malformed
/// sequence replaced.
pub uninterp spec fn lossy_text(bytes: Seq<u8>) -> Seq<char>;

/// `String::from_utf8_lossy`: for well-formed UTF-8, the text it encodes.
#[verifier::external_body]
fn text_from_bytes(bytes: &[u8]) -> (r: String)
    ensures
        r@ == lossy_text(bytes@),
        valid_utf8(bytes@) ==> r@ == decode_utf8(bytes@),
{
    String::from_utf8_lossy(bytes).into_owned()
}

/// What the fetch of a page gives, as values.
pub open spec fn page_outcome(url: Seq<char>, fetched: Result<Option<Seq<u8>>, Seq<char>>) -> Result<
    Option<Seq<char>>,
    ClientErrorView,
> {
    match fetched {
        Ok(Some(bytes)) => Ok(Some(lossy_text(bytes))),
        Ok(None) => Ok(None),
        Err(source) => Err(ClientErrorView { source, url }),
    }
}

/// What the fetch of an entry's media gives, as values.
pub open spec fn media_outcome(url: Seq<char>, fetched: Result<Option<Seq<u8>>, Seq<char>>) -> Result<
    Option<MediaEntryView>,
    ClientErrorView,
> {
    match fetched {
        Ok(Some(bytes)) => Ok(Some(MediaEntryView { media_type: MediaType::ImagePNG, data: bytes })),
        Ok(None) => Ok(None),
        Err(source) => Err(ClientErrorView { source, url }),
    }
}

/// The view of what a transport reports.
pub open spec fn fetched_view(fetched: Result<Option<Vec<u8>>, String>) -> Result<
    Option<Seq<u8>>,
    Seq<char>,
> {
    match fetched {
        Ok(Some(bytes)) => Ok(Some(bytes@)),
        Ok(None) => Ok(None),
        Err(source) => Err(source@),
    }
}

/// The view of what the fetch of a page gives.
pub open spec fn page_result_view(r: Result<Option<String>, ClientError>) -> Result<
    Option<Seq<char>>,
    ClientErrorView,
> {
    match r {
        Ok(Some(text)) => Ok(Some(text@)),
        Ok(None) => Ok(None),
        Err(e) => Err(e@),
    }
}

/// The view of what the fetch of an entry's media gives.
pub open spec fn media_result_view(r: Result<Option<MediaEntry>, ClientError>) -> Result<
    Option<MediaEntryView>,
    ClientErrorView,
> {
    match r {
        Ok(Some(media)) => Ok(Some(media@)),
        Ok(None) => Ok(None),
        Err(e) => Err(e@),
    }
}

/// The address to ask for the page of a day; `None` where the day has no
/// calendar date.
pub fn page_request(date: ApodDate) -> (r: Option<String>)
    ensures
        r.deep_view() == date.page_url_spec(),
{
    date.page_url()
}

/// What the fetch of a page gives: its text where there is one, nothing
/// where the page does not exist, an error with the address where the
/// transport failed.
pub fn fetch_page_result(url: String, fetched: Result<Option<Vec<u8>>, String>) -> (r: Result<
    Option<String>,
    ClientError,
>)
    ensures
        page_result_view(r) == page_outcome(url@, fetched_view(fetched)),
{
    match fetched {
        Ok(Some(bytes)) => Ok(Some(text_from_bytes(bytes.as_slice()))),
        Ok(None) => Ok(None),
        Err(source) => Err(ClientError::Fetch { source, url }),
    }
}

/// The address to ask for the media of an entry: the one of the highest
/// resolution; `None` where the entry has no media.
pub fn media_request(entry: &ApodEntry) -> (r: Option<String>)
    ensures
        r.deep_view() == if entry@.media.hd_url is Some {
            entry@.media.hd_url
        } else {
            entry@.media.url
        },
{
    match entry.media.highest_quality() {
        Some(url) => Some(String::from_str(url)),
        None => None,
    }
}

/// What the fetch of an entry's media gives: the bytes as a media blob,
/// nothing where the address does not exist, an error with the address
/// where the transport failed.
pub fn fetch_media_result(url: String, fetched: Result<Option<Vec<u8>>, String>) -> (r: Result<
    Option<MediaEntry>,
    ClientError,
>)
    ensures
        media_result_view(r) == media_outcome(url@, fetched_view(fetched)),
{
    match fetched {
        Ok(Some(bytes)) => Ok(Some(MediaEntry { media_type: MediaType::ImagePNG, data: bytes })),
        Ok(None) => Ok(None),
        Err(source) => Err(ClientError::Fetch { source, url }),
    }
}

} // verus!
