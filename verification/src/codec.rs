//! The codec: any payload type that can write itself as bytes and read
//! itself back travels in a frame. The framing knows nothing of what it
//! carries.

use crate::envelope::{
    after_first_frame, complete_frame, first_payload, fits_frame, frame_bytes,
    lemma_frame_then_rest, ByteReader, SerializedDataContainer, HEADER_LEN,
};
use crate::error::DecodeError;
use vstd::bytes::*;
use vstd::prelude::*;

verus! {

/// A value that can be carried as the payload of a frame.
///
/// `wire` says which bytes stand for a value and `parse` which value, if
/// any, given bytes stand for; the two executable methods compute them.
pub trait Payload: Sized + View {
    /// The values that have an encoding.
    spec fn encodable(value: Self::V) -> bool;

    /// The payload bytes of a value.
    spec fn wire(value: Self::V) -> Seq<u8>;

    /// The value that payload bytes stand for, or why they stand for none.
    spec fn parse(bytes: Seq<u8>) -> Result<Self::V, DecodeError>;

    /// Reading back what was written gives the value that was written, and
    /// what was written fits in a frame.
    proof fn lemma_parse_inverts_wire(value: Self::V)
        requires
            Self::encodable(value),
        ensures
            fits_frame(Self::wire(value)),
            Self::parse(Self::wire(value)) == Ok::<Self::V, DecodeError>(value),
    ;

    /// Writes the value as payload bytes.
    fn to_bytes(&self) -> (bytes: Vec<u8>)
        ensures
            Self::encodable(self@),
            bytes@ == Self::wire(self@),
    ;

    /// Reads a value from payload bytes.
    fn from_bytes(bytes: &[u8]) -> (result: Result<Self, DecodeError>)
        ensures
            match result {
                Ok(value) => Self::parse(bytes@) == Ok::<Self::V, DecodeError>(value@),
                Err(e) => Self::parse(bytes@) == Err::<Self::V, DecodeError>(e),
            },
    ;
}

/// The frame that carries `value`.
pub open spec fn encoded<T: Payload>(value: T::V) -> Seq<u8> {
    frame_bytes(T::wire(value))
}

/// What the frame at the start of `stream` decodes to.
pub open spec fn decoded<T: Payload>(stream: Seq<u8>) -> Result<T::V, DecodeError> {
    if complete_frame(stream) {
        T::parse(first_payload(stream))
    } else {
        Err(DecodeError::Truncated)
    }
}

/// Serializes `value` and frames it.
pub fn encode<T: Payload>(value: &T) -> (frame: Vec<u8>)
    ensures
        T::encodable(value@),
        frame@ == encoded::<T>(value@),
{
    SerializedDataContainer::from_serializable_data(value).to_one_vec()
}

/// Takes one frame from the reader and deserializes its payload. Where no
/// whole frame is left the reader stays where it was; a whole frame is taken
/// even if its payload is then refused.
pub fn decode_from_stream<T: Payload>(reader: &mut ByteReader) -> (result: Result<T, DecodeError>)
    ensures
        final(reader).remaining() == after_first_frame(old(reader).remaining()),
        final(reader).consumed() + final(reader).remaining().len() == old(reader).consumed() + old(
            reader,
        ).remaining().len(),
        match result {
            Ok(value) => decoded::<T>(old(reader).remaining()) == Ok::<T::V, DecodeError>(value@),
            Err(e) => decoded::<T>(old(reader).remaining()) == Err::<T::V, DecodeError>(e),
        },
{
    match SerializedDataContainer::from_reader(reader) {
        Ok(container) => container.to_serializable_data(),
        Err(e) => Err(e),
    }
}

/// Decoding an encoded value gives that value back, and leaves in the stream
/// exactly what stood behind its frame.
pub proof fn lemma_round_trip<T: Payload>(value: T::V, rest: Seq<u8>)
    requires
        T::encodable(value),
    ensures
        decoded::<T>(encoded::<T>(value) + rest) == Ok::<T::V, DecodeError>(value),
        after_first_frame(encoded::<T>(value) + rest) == rest,
        encoded::<T>(value).len() == HEADER_LEN + T::wire(value).len(),
{
    T::lemma_parse_inverts_wire(value);
    lemma_frame_then_rest(T::wire(value), rest);
}

/// Two frames that stand one behind the other are decoded in that order,
/// each from exactly its own bytes: the first decode leaves the second frame
/// and what follows it, the second leaves what follows.
pub proof fn lemma_pipelined<T: Payload>(first: T::V, second: T::V, rest: Seq<u8>)
    requires
        T::encodable(first),
        T::encodable(second),
    ensures
        ({
            let stream = encoded::<T>(first) + encoded::<T>(second) + rest;
            let behind = after_first_frame(stream);
            &&& decoded::<T>(stream) == Ok::<T::V, DecodeError>(first)
            &&& behind == encoded::<T>(second) + rest
            &&& stream.len() - behind.len() == encoded::<T>(first).len()
            &&& decoded::<T>(behind) == Ok::<T::V, DecodeError>(second)
            &&& after_first_frame(behind) == rest
            &&& behind.len() - rest.len() == encoded::<T>(second).len()
        }),
{
    let stream = encoded::<T>(first) + encoded::<T>(second) + rest;
    assert(stream =~= encoded::<T>(first) + (encoded::<T>(second) + rest));
    lemma_round_trip::<T>(first, encoded::<T>(second) + rest);
    lemma_round_trip::<T>(second, rest);
}

/// A frame that was cut short anywhere, in its header or in its payload, is
/// refused as truncated.
pub proof fn lemma_cut_frame_is_truncated<T: Payload>(payload: Seq<u8>, kept: int)
    requires
        fits_frame(payload),
        0 <= kept < frame_bytes(payload).len(),
    ensures
        !complete_frame(frame_bytes(payload).take(kept)),
        decoded::<T>(frame_bytes(payload).take(kept)) == Err::<T::V, DecodeError>(
            DecodeError::Truncated,
        ),
{
    lemma_auto_spec_u64_to_from_le_bytes();
    let cut = frame_bytes(payload).take(kept);
    if kept >= HEADER_LEN {
        assert(cut.subrange(0, HEADER_LEN as int) =~= spec_u64_to_le_bytes(payload.len() as u64));
    }
}

} // verus!
