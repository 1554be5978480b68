//! The calls into `bitcode` and `zstd`: records to bytes and back, and
//! bytes to compressed bytes and back.
//!
//! Neither byte encoding is described here. Each is named by what its
//! decoder gives, and an encoder is trusted to write what that decoder
//! reads back as the value it was given.

use vstd::prelude::*;

verus! {

/// `bitcode::Error`: why bytes could not be decoded. Nothing is read from
/// it here.
#[verifier::external_type_specification]
#[verifier::external_body]
pub struct ExCodecError(bitcode::Error);

/// `std::io::Error`: why compressing or decompressing failed. Nothing is
/// read from it here.
#[verifier::external_type_specification]
#[verifier::external_body]
pub struct ExIoError(std::io::Error);

/// What `bitcode` decodes bytes to as a list of pairs of a day index and a
/// text; `None` where the bytes are no such list.
pub uninterp spec fn decoded_documents(data: Seq<u8>) -> Option<Seq<(i32, Seq<char>)>>;

/// What `bitcode` decodes bytes to as a list of records of a day index, a
/// title, an explanation and two optional addresses; `None` where the
/// bytes are no such list.
pub uninterp spec fn decoded_entries(data: Seq<u8>) -> Option<
    Seq<(i32, Seq<char>, Seq<char>, Option<Seq<char>>, Option<Seq<char>>)>,
>;

/// What `bitcode` decodes bytes to as a pair of a kind tag and a payload;
/// `None` where the bytes are no such pair.
pub uninterp spec fn decoded_media(data: Seq<u8>) -> Option<(u8, Seq<u8>)>;

/// What `zstd` decompresses bytes to; `None` where the bytes are no
/// compressed stream.
pub uninterp spec fn decompressed(data: Seq<u8>) -> Option<Seq<u8>>;

/// What `zstd` compresses bytes to at a compression level; `None` where it
/// fails on them.
pub uninterp spec fn compressed(data: Seq<u8>, level: int) -> Option<Seq<u8>>;

/// `bitcode::encode` on a list of pairs: bytes that `bitcode::decode` reads
/// back as the same list.
#[verifier::external_body]
pub(crate) fn encode_documents(records: &Vec<(i32, String)>) -> (data: Vec<u8>)
    ensures
        decoded_documents(data@) == Some(records.deep_view()),
{
    bitcode::encode(records)
}

/// `bitcode::decode` to a list of pairs.
#[verifier::external_body]
pub(crate) fn decode_documents(data: &[u8]) -> (r: Result<Vec<(i32, String)>, bitcode::Error>)
    ensures
        match r {
            Ok(records) => decoded_documents(data@) == Some(records.deep_view()),
            Err(_) => decoded_documents(data@) is None,
        },
{
    bitcode::decode(data)
}

/// `bitcode::encode` on a list of entry records: bytes that
/// `bitcode::decode` reads back as the same list.
#[verifier::external_body]
pub(crate) fn encode_entries(
    records: &Vec<(i32, String, String, Option<String>, Option<String>)>,
) -> (data: Vec<u8>)
    ensures
        decoded_entries(data@) == Some(records.deep_view()),
{
    bitcode::encode(records)
}

/// `bitcode::decode` to a list of entry records.
#[verifier::external_body]
pub(crate) fn decode_entries(data: &[u8]) -> (r: Result<
    Vec<(i32, String, String, Option<String>, Option<String>)>,
    bitcode::Error,
>)
    ensures
        match r {
            Ok(records) => decoded_entries(data@) == Some(records.deep_view()),
            Err(_) => decoded_entries(data@) is None,
        },
{
    bitcode::decode(data)
}

/// `bitcode::encode` on a kind tag and a payload: bytes that
/// `bitcode::decode` reads back as the same pair.
#[verifier::external_body]
pub(crate) fn encode_media(record: &(u8, Vec<u8>)) -> (data: Vec<u8>)
    ensures
        decoded_media(data@) == Some((record.0, record.1@)),
{
    bitcode::encode(record)
}

/// `bitcode::decode` to a kind tag and a payload.
#[verifier::external_body]
pub(crate) fn decode_media(data: &[u8]) -> (r: Result<(u8, Vec<u8>), bitcode::Error>)
    ensures
        match r {
            Ok(record) => decoded_media(data@) == Some((record.0, record.1@)),
            Err(_) => decoded_media(data@) is None,
        },
{
    bitcode::decode(data)
}

/// `zstd::encode_all` at a compression level: the stream that `zstd` makes
/// of these bytes at this level or, where it fails on them, nothing. On
/// success the stream is one that `zstd::decode_all` reads back as the bytes
/// given, whatever the level.
#[verifier::external_body]
pub(crate) fn compress_bytes(data: &[u8], level: i32) -> (r: Result<Vec<u8>, std::io::Error>)
    ensures
        match r {
            Ok(stream) => compressed(data@, level as int) == Some(stream@) && decompressed(stream@)
                == Some(data@),
            Err(_) => compressed(data@, level as int) is None,
        },
{
    zstd::encode_all(data, level)
}

/// `zstd::decode_all`.
#[verifier::external_body]
pub(crate) fn decompress_bytes(data: &[u8]) -> (r: Result<Vec<u8>, std::io::Error>)
    ensures
        match r {
            Ok(bytes) => decompressed(data@) == Some(bytes@),
            Err(_) => decompressed(data@) is None,
        },
{
    zstd::decode_all(data)
}

} // verus!
