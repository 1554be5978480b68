//! Media blobs: what is kept of a day's media, and its form as bytes.

use crate::codec::decode_media;
use crate::codec::decoded_media;
use crate::codec::encode_media;
use crate::date::ApodDate;
use vstd::prelude::*;

pub mod fetcher;
pub mod handles;

verus! {

/// What kind of media a blob holds.
#[derive(Debug, Clone, Copy, PartialEq, Eq, Structural)]
pub enum MediaType {
    ImagePNG,
}

/// The media of one day: its kind and its bytes.
#[derive(Debug)]
pub struct MediaEntry {
    pub media_type: MediaType,
    pub data: Vec<u8>,
}

/// The media of one day, as values.
pub struct MediaEntryView {
    pub media_type: MediaType,
    pub data: Seq<u8>,
}

impl View for MediaEntry {
    type V = MediaEntryView;

    open spec fn view(&self) -> MediaEntryView {
        MediaEntryView { media_type: self.media_type, data: self.data@ }
    }
}

/// Why the persistent store failed: in words.
#[derive(Debug)]
pub struct StoreError {
    pub message: String,
}

/// A persistent store of media blobs, one for each day. Whether a call
/// succeeds, and what `get` finds, is up to the store.
pub trait MediaCache {
    fn store(&mut self, date: ApodDate, data: &[u8], media_type: MediaType) -> Result<
        (),
        StoreError,
    >;

    fn get(&self, date: ApodDate) -> Result<Option<MediaEntry>, StoreError>;
}

/// Why bytes are no media blob.
#[derive(Debug)]
pub enum BlobError {
    Codec(bitcode::Error),
    UnknownKind(u8),
}

/// The tag that stands for a kind of media.
pub open spec fn tag_of(kind: MediaType) -> u8 {
    match kind {
        MediaType::ImagePNG => 0,
    }
}

/// The kind of media that a tag stands for.
pub open spec fn kind_of_tag(tag: u8) -> Option<MediaType> {
    if tag == 0 {
        Some(MediaType::ImagePNG)
    } else {
        None
    }
}

/// The media blob that bytes hold; `None` where they hold none.
pub open spec fn decoded_blob(data: Seq<u8>) -> Option<MediaEntryView> {
    match decoded_media(data) {
        Some((tag, payload)) => match kind_of_tag(tag) {
            Some(kind) => Some(MediaEntryView { media_type: kind, data: payload }),
            None => None,
        },
        None => None,
    }
}

impl MediaType {
    pub fn tag(self) -> (r: u8)
        ensures
            r == tag_of(self),
            kind_of_tag(r) == Some(self),
    {
        match self {
            MediaType::ImagePNG => 0,
        }
    }

    pub fn from_tag(tag: u8) -> (r: Option<MediaType>)
        ensures
            r == kind_of_tag(tag),
    {
        if tag == 0 {
            Some(MediaType::ImagePNG)
        } else {
            None
        }
    }
}

/// The key under which the persistent store keeps the media of a day.
pub fn store_key(date: ApodDate) -> (key: i32)
    ensures
        key == date.0,
{
    date.days()
}

/// A copy of `bytes`.
fn copy_bytes(bytes: &[u8]) -> (r: Vec<u8>)
    ensures
        r@ == bytes@,
{
    let mut r: Vec<u8> = Vec::new();
    let mut i: usize = 0;
    while i < bytes.len()
        invariant
            i <= bytes.len(),
            r@ == bytes@.take(i as int),
        decreases bytes.len() - i,
    {
        r.push(bytes[i]);
        i += 1;
    }
    assert(bytes@.take(bytes.len() as int) == bytes@);
    r
}

/// The bytes under which a media blob is stored. They decode to the blob
/// again.
pub fn encode_blob(data: &[u8], media_type: MediaType) -> (r: Vec<u8>)
    ensures
        decoded_blob(r@) == Some(MediaEntryView { media_type, data: data@ }),
{
    let record = (media_type.tag(), copy_bytes(data));
    encode_media(&record)
}

/// The media blob that stored bytes hold.
pub fn decode_blob(data: &[u8]) -> (r: Result<MediaEntry, BlobError>)
    ensures
        match r {
            Ok(entry) => decoded_blob(data@) == Some(entry@),
            Err(e) => decoded_blob(data@) is None && (e is Codec <==> decoded_media(data@) is None),
        },
{
    match decode_media(data) {
        Ok((tag, payload)) => match MediaType::from_tag(tag) {
            Some(media_type) => Ok(MediaEntry { media_type, data: payload }),
            None => Err(BlobError::UnknownKind(tag)),
        },
        Err(e) => Err(BlobError::Codec(e)),
    }
}

} // verus!
