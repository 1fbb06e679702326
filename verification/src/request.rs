//! The requests that the protocol carries, and their payload bytes.
//!
//! A payload is a tag of four little-endian bytes that says which request it
//! is, then the request's fields in order. A text field is its UTF-8 bytes
//! behind their count as eight little-endian bytes.

use crate::codec::{decoded, encoded, lemma_round_trip, Payload};
use crate::envelope::{
    after_first_frame, complete_frame, first_payload, fits_frame, frame_bytes,
    lemma_frame_then_rest, ByteReader, SerializedDataContainer,
};
use crate::error::DecodeError;
use vstd::bytes::*;
use vstd::prelude::*;
use vstd::slice::*;
use vstd::utf8::*;

verus! {

/// Width of the tag that says which request a payload holds.
pub const TAG_LEN: usize = 4;

/// Tag of the request to open a directory.
pub const OPEN_TAG: u32 = 0;

/// A directory on a remote host that is to be opened.
#[derive(Debug)]
pub struct CodeOpenInfo {
    /// Name of the host that the request comes from, as that host sees it.
    pub remote_host_name: String,
    /// Absolute path of the directory on that host.
    pub remote_dir_full_path: String,
}

/// What a [`CodeOpenInfo`] holds, as plain text.
pub struct OpenInfoView {
    pub origin_host: Seq<char>,
    pub remote_dir_path: Seq<char>,
}

impl View for CodeOpenInfo {
    type V = OpenInfoView;

    open spec fn view(&self) -> OpenInfoView {
        OpenInfoView {
            origin_host: self.remote_host_name@,
            remote_dir_path: self.remote_dir_full_path@,
        }
    }
}

impl CodeOpenInfo {
    pub fn new(remote_host_name: String, remote_dir_full_path: String) -> (info: Self)
        ensures
            info.remote_host_name == remote_host_name,
            info.remote_dir_full_path == remote_dir_full_path,
    {
        CodeOpenInfo { remote_host_name, remote_dir_full_path }
    }
}

impl PartialEq for CodeOpenInfo {
    fn eq(&self, other: &Self) -> (equal: bool) {
        self.remote_host_name == other.remote_host_name && self.remote_dir_full_path
            == other.remote_dir_full_path
    }
}

impl vstd::std_specs::cmp::PartialEqSpecImpl for CodeOpenInfo {
    open spec fn obeys_eq_spec() -> bool {
        true
    }

    open spec fn eq_spec(&self, other: &Self) -> bool {
        self@ == other@
    }
}

impl Clone for CodeOpenInfo {
    fn clone(&self) -> (copy: Self)
        ensures
            copy@ == self@,
    {
        CodeOpenInfo {
            remote_host_name: self.remote_host_name.clone(),
            remote_dir_full_path: self.remote_dir_full_path.clone(),
        }
    }
}

/// A request from the client to the server.
#[derive(Debug)]
pub enum CodeOpenRequest {
    /// Open an editor window on the directory that the info names.
    Open(CodeOpenInfo),
}

/// What a [`CodeOpenRequest`] holds, as plain text.
pub enum RequestView {
    Open(OpenInfoView),
}

impl View for CodeOpenRequest {
    type V = RequestView;

    open spec fn view(&self) -> RequestView {
        match self {
            CodeOpenRequest::Open(info) => RequestView::Open(info@),
        }
    }
}

impl PartialEq for CodeOpenRequest {
    fn eq(&self, other: &Self) -> (equal: bool) {
        match (self, other) {
            (CodeOpenRequest::Open(mine), CodeOpenRequest::Open(theirs)) => mine == theirs,
        }
    }
}

impl vstd::std_specs::cmp::PartialEqSpecImpl for CodeOpenRequest {
    open spec fn obeys_eq_spec() -> bool {
        true
    }

    open spec fn eq_spec(&self, other: &Self) -> bool {
        match (self, other) {
            (CodeOpenRequest::Open(mine), CodeOpenRequest::Open(theirs)) => mine@ == theirs@,
        }
    }
}

impl Clone for CodeOpenRequest {
    fn clone(&self) -> (copy: Self)
        ensures
            copy@ == self@,
    {
        match self {
            CodeOpenRequest::Open(info) => CodeOpenRequest::Open(info.clone()),
        }
    }
}

/// The bytes of a text field.
pub open spec fn text_wire(text: Seq<char>) -> Seq<u8> {
    frame_bytes(encode_utf8(text))
}

/// Texts whose byte count the field's length prefix can express.
pub open spec fn text_encodable(text: Seq<char>) -> bool {
    fits_frame(encode_utf8(text))
}

/// The bytes of the two fields of an info.
pub open spec fn info_wire(info: OpenInfoView) -> Seq<u8> {
    text_wire(info.origin_host) + text_wire(info.remote_dir_path)
}

/// The payload bytes of a request.
pub open spec fn request_wire(request: RequestView) -> Seq<u8> {
    match request {
        RequestView::Open(info) => spec_u32_to_le_bytes(OPEN_TAG) + info_wire(info),
    }
}

/// The requests that have a payload: each text fits its length prefix, and
/// the whole fits the length prefix of a frame.
pub open spec fn request_encodable(request: RequestView) -> bool {
    match request {
        RequestView::Open(info) => {
            &&& text_encodable(info.origin_host)
            &&& text_encodable(info.remote_dir_path)
            &&& fits_frame(request_wire(request))
        },
    }
}

/// The text field at the start of `bytes`.
pub open spec fn parse_text(bytes: Seq<u8>) -> Result<Seq<char>, DecodeError> {
    if !complete_frame(bytes) {
        Err(DecodeError::Truncated)
    } else if !valid_utf8(first_payload(bytes)) {
        Err(DecodeError::InvalidText)
    } else {
        Ok(decode_utf8(first_payload(bytes)))
    }
}

/// The info that `bytes` hold: two text fields and nothing behind them.
pub open spec fn parse_info(bytes: Seq<u8>) -> Result<OpenInfoView, DecodeError> {
    match parse_text(bytes) {
        Err(e) => Err(e),
        Ok(origin_host) => match parse_text(after_first_frame(bytes)) {
            Err(e) => Err(e),
            Ok(remote_dir_path) => if after_first_frame(after_first_frame(bytes)).len() != 0 {
                Err(DecodeError::TrailingBytes)
            } else {
                Ok(OpenInfoView { origin_host, remote_dir_path })
            },
        },
    }
}

/// The request that payload `bytes` hold: a known tag, then that request's
/// fields.
pub open spec fn parse_request(bytes: Seq<u8>) -> Result<RequestView, DecodeError> {
    if bytes.len() < TAG_LEN {
        Err(DecodeError::Truncated)
    } else if spec_u32_from_le_bytes(bytes.take(TAG_LEN as int)) != OPEN_TAG {
        Err(DecodeError::UnknownTag)
    } else {
        match parse_info(bytes.skip(TAG_LEN as int)) {
            Err(e) => Err(e),
            Ok(info) => Ok(RequestView::Open(info)),
        }
    }
}

/// `String::from_utf8` of std: the bytes become a text exactly when they
/// are valid UTF-8, and the text is then the one that they encode.
#[verifier::external_body]
fn text_from_utf8(bytes: Vec<u8>) -> (text: Option<String>)
    ensures
        text is Some <==> valid_utf8(bytes@),
        text is Some ==> text->0@ == decode_utf8(bytes@),
{
    String::from_utf8(bytes).ok()
}

/// Appends a text field to `out`.
fn write_text(out: &mut Vec<u8>, text: &str)
    ensures
        text_encodable(text@),
        final(out)@ == old(out)@ + text_wire(text@),
{
    let body = text.as_bytes();
    let header = u64_to_le_bytes(body.len() as u64);
    out.extend_from_slice(header.as_slice());
    out.extend_from_slice(body);
    assert(out@ =~= old(out)@ + text_wire(text@));
}

/// Takes a text field from the reader.
fn read_text(reader: &mut ByteReader) -> (result: Result<String, DecodeError>)
    ensures
        final(reader).remaining() == after_first_frame(old(reader).remaining()),
        match result {
            Ok(text) => parse_text(old(reader).remaining()) == Ok::<Seq<char>, DecodeError>(text@),
            Err(e) => parse_text(old(reader).remaining()) == Err::<Seq<char>, DecodeError>(e),
        },
{
    match SerializedDataContainer::from_reader(reader) {
        Err(e) => Err(e),
        Ok(container) => match text_from_utf8(container.into_data()) {
            Some(text) => Ok(text),
            None => Err(DecodeError::InvalidText),
        },
    }
}

/// A text field is read back as the text that was written, whatever
/// follows it.
pub proof fn lemma_text_round_trip(text: Seq<char>, rest: Seq<u8>)
    requires
        text_encodable(text),
    ensures
        parse_text(text_wire(text) + rest) == Ok::<Seq<char>, DecodeError>(text),
        after_first_frame(text_wire(text) + rest) == rest,
{
    lemma_frame_then_rest(encode_utf8(text), rest);
    encode_utf8_valid_utf8(text);
    encode_utf8_decode_utf8(text);
}

/// The payload of a request is read back as that request.
pub proof fn lemma_request_round_trip(request: RequestView)
    requires
        request_encodable(request),
    ensures
        parse_request(request_wire(request)) == Ok::<RequestView, DecodeError>(request),
{
    lemma_auto_spec_u32_to_from_le_bytes();
    let RequestView::Open(info) = request;
    let bytes = request_wire(request);
    let tag = spec_u32_to_le_bytes(OPEN_TAG);
    assert(bytes.take(TAG_LEN as int) =~= tag);
    assert(bytes.skip(TAG_LEN as int) =~= info_wire(info));
    lemma_text_round_trip(info.origin_host, text_wire(info.remote_dir_path));
    assert(text_wire(info.remote_dir_path) + Seq::<u8>::empty() =~= text_wire(
        info.remote_dir_path,
    ));
    lemma_text_round_trip(info.remote_dir_path, Seq::empty());
}

/// Decoding the frame of a request to open a directory gives that request
/// back, host and path as they were.
pub proof fn lemma_open_round_trip(info: OpenInfoView)
    requires
        request_encodable(RequestView::Open(info)),
    ensures
        decoded::<CodeOpenRequest>(encoded::<CodeOpenRequest>(RequestView::Open(info))) == Ok::<
            RequestView,
            DecodeError,
        >(RequestView::Open(info)),
{
    let frame = encoded::<CodeOpenRequest>(RequestView::Open(info));
    assert(frame + Seq::<u8>::empty() =~= frame);
    lemma_round_trip::<CodeOpenRequest>(RequestView::Open(info), Seq::empty());
}

impl Payload for CodeOpenRequest {
    open spec fn encodable(value: RequestView) -> bool {
        request_encodable(value)
    }

    open spec fn wire(value: RequestView) -> Seq<u8> {
        request_wire(value)
    }

    open spec fn parse(bytes: Seq<u8>) -> Result<RequestView, DecodeError> {
        parse_request(bytes)
    }

    proof fn lemma_parse_inverts_wire(value: RequestView) {
        lemma_request_round_trip(value);
    }

    fn to_bytes(&self) -> (bytes: Vec<u8>) {
        match self {
            CodeOpenRequest::Open(info) => {
                let mut bytes = u32_to_le_bytes(OPEN_TAG);
                write_text(&mut bytes, info.remote_host_name.as_str());
                write_text(&mut bytes, info.remote_dir_full_path.as_str());
                assert(bytes@ =~= request_wire(self@));
                assert(bytes@.len() == bytes.len());
                bytes
            },
        }
    }

    fn from_bytes(bytes: &[u8]) -> (result: Result<Self, DecodeError>) {
        let mut reader = ByteReader::new(slice_to_vec(bytes));
        let tag_bytes = match reader.read_exact(TAG_LEN) {
            Some(tag_bytes) => tag_bytes,
            None => {
                return Err(DecodeError::Truncated);
            },
        };
        if u32_from_le_bytes(tag_bytes.as_slice()) != OPEN_TAG {
            return Err(DecodeError::UnknownTag);
        }
        let remote_host_name = match read_text(&mut reader) {
            Ok(text) => text,
            Err(e) => {
                return Err(e);
            },
        };
        let remote_dir_full_path = match read_text(&mut reader) {
            Ok(text) => text,
            Err(e) => {
                return Err(e);
            },
        };
        if reader.remaining_len() != 0 {
            return Err(DecodeError::TrailingBytes);
        }
        Ok(CodeOpenRequest::Open(CodeOpenInfo::new(remote_host_name, remote_dir_full_path)))
    }
}

} // verus!
