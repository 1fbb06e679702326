//! The envelope: one payload behind an explicit length, so that a receiver
//! knows how many bytes belong to it before it looks at any of them.

use crate::codec::Payload;
use crate::error::DecodeError;
use vstd::bytes::*;
use vstd::prelude::*;
use vstd::slice::*;

verus! {

/// Number of bytes that announce a payload's length.
pub const HEADER_LEN: usize = 8;

/// One frame: the payload's length as eight little-endian bytes, then the payload.
pub open spec fn frame_bytes(payload: Seq<u8>) -> Seq<u8> {
    spec_u64_to_le_bytes(payload.len() as u64) + payload
}

/// Payloads whose length the header can express.
pub open spec fn fits_frame(payload: Seq<u8>) -> bool {
    payload.len() <= u64::MAX
}

/// The payload length that the first eight bytes of `stream` announce.
pub open spec fn declared_len(stream: Seq<u8>) -> int
    recommends
        stream.len() >= HEADER_LEN,
{
    spec_u64_from_le_bytes(stream.subrange(0, HEADER_LEN as int)) as int
}

/// `stream` starts with a whole frame: a header, and at least as many bytes
/// behind it as the header announces.
pub open spec fn complete_frame(stream: Seq<u8>) -> bool {
    stream.len() >= HEADER_LEN && stream.len() - HEADER_LEN >= declared_len(stream)
}

/// Length of the frame at the start of `stream`, header included.
pub open spec fn first_frame_len(stream: Seq<u8>) -> int
    recommends
        complete_frame(stream),
{
    HEADER_LEN + declared_len(stream)
}

/// Payload of the frame at the start of `stream`.
pub open spec fn first_payload(stream: Seq<u8>) -> Seq<u8>
    recommends
        complete_frame(stream),
{
    stream.subrange(HEADER_LEN as int, first_frame_len(stream))
}

/// What is left of `stream` once one frame has been taken from it: all of
/// it where no whole frame stands at its start.
pub open spec fn after_first_frame(stream: Seq<u8>) -> Seq<u8> {
    if complete_frame(stream) {
        stream.skip(first_frame_len(stream))
    } else {
        stream
    }
}

/// A frame is read back as its payload, whatever follows it in the stream.
pub proof fn lemma_frame_then_rest(payload: Seq<u8>, rest: Seq<u8>)
    requires
        fits_frame(payload),
    ensures
        frame_bytes(payload).len() == HEADER_LEN + payload.len(),
        complete_frame(frame_bytes(payload) + rest),
        first_frame_len(frame_bytes(payload) + rest) == frame_bytes(payload).len(),
        first_payload(frame_bytes(payload) + rest) == payload,
        after_first_frame(frame_bytes(payload) + rest) == rest,
{
    lemma_auto_spec_u64_to_from_le_bytes();
    let header = spec_u64_to_le_bytes(payload.len() as u64);
    let stream = frame_bytes(payload) + rest;
    assert(stream.subrange(0, HEADER_LEN as int) =~= header);
    assert(stream.subrange(HEADER_LEN as int, HEADER_LEN + payload.len()) =~= payload);
    assert(stream.skip(HEADER_LEN + payload.len()) =~= rest);
}

/// The payload length that a header announces, for a reader that has the
/// header and now needs to know how many bytes to wait for. Fewer bytes
/// than a header has announce nothing.
pub fn declared_payload_len(header: &[u8]) -> (len: Option<u64>)
    ensures
        match len {
            Some(count) => header@.len() >= HEADER_LEN && count == declared_len(header@),
            None => header@.len() < HEADER_LEN,
        },
{
    if header.len() < HEADER_LEN {
        None
    } else {
        Some(u64_from_le_bytes(slice_subrange(header, 0, HEADER_LEN)))
    }
}

/// A cursor over received bytes: what has been read is gone, what has not
/// is still to come.
pub struct ByteReader {
    bytes: Vec<u8>,
    pos: usize,
}

impl ByteReader {
    #[verifier::type_invariant]
    spec fn in_bounds(self) -> bool {
        self.pos <= self.bytes.len()
    }

    /// The bytes that have not been read yet.
    pub closed spec fn remaining(&self) -> Seq<u8> {
        self.bytes@.skip(self.pos as int)
    }

    /// How many bytes have been read.
    pub closed spec fn consumed(&self) -> int {
        self.pos as int
    }

    /// A reader at the start of `bytes`.
    pub fn new(bytes: Vec<u8>) -> (reader: Self)
        ensures
            reader.remaining() == bytes@,
            reader.consumed() == 0,
    {
        assert(bytes@.skip(0) =~= bytes@);
        ByteReader { bytes, pos: 0 }
    }

    /// How many bytes have been read.
    pub fn position(&self) -> (pos: usize)
        ensures
            pos == self.consumed(),
    {
        self.pos
    }

    /// How many bytes are still to be read.
    pub fn remaining_len(&self) -> (len: usize)
        ensures
            len == self.remaining().len(),
    {
        proof {
            use_type_invariant(self);
        }
        self.bytes.len() - self.pos
    }

    /// Takes the next `count` bytes, or none at all where fewer are left.
    pub fn read_exact(&mut self, count: usize) -> (taken: Option<Vec<u8>>)
        ensures
            final(self).consumed() + final(self).remaining().len() == old(self).consumed() + old(
                self,
            ).remaining().len(),
            match taken {
                Some(bytes) => count <= old(self).remaining().len() && bytes@ == old(
                    self,
                ).remaining().take(count as int) && final(self).remaining() == old(
                    self,
                ).remaining().skip(count as int),
                None => count > old(self).remaining().len() && final(self).remaining() == old(
                    self,
                ).remaining(),
            },
    {
        proof {
            use_type_invariant(&*self);
        }
        if count > self.bytes.len() - self.pos {
            return None;
        }
        let end = self.pos + count;
        let taken = slice_to_vec(slice_subrange(self.bytes.as_slice(), self.pos, end));
        assert(taken@ =~= self.remaining().take(count as int));
        assert(self.bytes@.skip(end as int) =~= self.remaining().skip(count as int));
        self.pos = end;
        Some(taken)
    }
}

/// The payload of one frame, with its length.
pub struct SerializedDataContainer {
    size: usize,
    data: Vec<u8>,
}

impl View for SerializedDataContainer {
    type V = Seq<u8>;

    closed spec fn view(&self) -> Seq<u8> {
        self.data@
    }
}

impl SerializedDataContainer {
    #[verifier::type_invariant]
    spec fn size_is_length(self) -> bool {
        self.size == self.data.len()
    }

    /// Wraps a payload.
    pub fn new(payload: &[u8]) -> (container: Self)
        ensures
            container@ == payload@,
    {
        let data = slice_to_vec(payload);
        SerializedDataContainer { size: data.len(), data }
    }

    /// Length of the payload.
    pub fn size(&self) -> (size: usize)
        ensures
            size == self@.len(),
    {
        proof {
            use_type_invariant(self);
        }
        self.size
    }

    /// The payload.
    pub fn data(&self) -> (data: &[u8])
        ensures
            data@ == self@,
    {
        self.data.as_slice()
    }

    /// Serializes `value` into a payload.
    pub fn from_serializable_data<T: Payload>(value: &T) -> (container: Self)
        ensures
            T::encodable(value@),
            container@ == T::wire(value@),
    {
        let data = value.to_bytes();
        SerializedDataContainer { size: data.len(), data }
    }

    /// Deserializes the payload.
    pub fn to_serializable_data<T: Payload>(&self) -> (result: Result<T, DecodeError>)
        ensures
            match result {
                Ok(value) => T::parse(self@) == Ok::<T::V, DecodeError>(value@),
                Err(e) => T::parse(self@) == Err::<T::V, DecodeError>(e),
            },
    {
        T::from_bytes(self.data.as_slice())
    }

    /// Gives the payload up.
    pub fn into_data(self) -> (data: Vec<u8>)
        ensures
            data@ == self@,
    {
        self.data
    }

    /// The frame that carries this payload.
    pub fn to_one_vec(&self) -> (frame: Vec<u8>)
        ensures
            frame@ == frame_bytes(self@),
            fits_frame(self@),
    {
        proof {
            use_type_invariant(self);
        }
        let mut frame = u64_to_le_bytes(self.size as u64);
        frame.extend_from_slice(self.data.as_slice());
        frame
    }

    /// Takes one frame from the reader. Where no whole frame is left, nothing
    /// is taken and nothing is returned but the error.
    pub fn from_reader(reader: &mut ByteReader) -> (result: Result<Self, DecodeError>)
        ensures
            final(reader).remaining() == after_first_frame(old(reader).remaining()),
            final(reader).consumed() + final(reader).remaining().len() == old(reader).consumed()
                + old(reader).remaining().len(),
            match result {
                Ok(container) => complete_frame(old(reader).remaining()) && container@
                    == first_payload(old(reader).remaining()),
                Err(e) => !complete_frame(old(reader).remaining()) && e == DecodeError::Truncated,
            },
    {
        proof {
            use_type_invariant(&*reader);
        }
        let left = reader.bytes.len() - reader.pos;
        if left < HEADER_LEN {
            return Err(DecodeError::Truncated);
        }
        let header = slice_subrange(reader.bytes.as_slice(), reader.pos, reader.pos + HEADER_LEN);
        let declared = u64_from_le_bytes(header);
        assert(header@ =~= reader.remaining().subrange(0, HEADER_LEN as int));
        if declared > (left - HEADER_LEN) as u64 {
            return Err(DecodeError::Truncated);
        }
        let start = reader.pos + HEADER_LEN;
        let end = start + declared as usize;
        let payload = slice_subrange(reader.bytes.as_slice(), start, end);
        assert(payload@ =~= first_payload(reader.remaining()));
        let container = SerializedDataContainer::new(payload);
        assert(reader.bytes@.skip(end as int) =~= reader.remaining().skip(
            first_frame_len(reader.remaining()),
        ));
        reader.pos = end;
        Ok(container)
    }

    /// Reads `bytes` as exactly one frame, with nothing behind it.
    pub fn from_one_vec(bytes: Vec<u8>) -> (result: Option<Self>)
        ensures
            match result {
                Some(container) => fits_frame(container@) && bytes@ == frame_bytes(container@),
                None => forall|payload: Seq<u8>| fits_frame(payload) ==> bytes@ != #[trigger] frame_bytes(payload),
            },
    {
        let mut reader = ByteReader::new(bytes);
        let ghost stream = reader.remaining();
        match SerializedDataContainer::from_reader(&mut reader) {
            Ok(container) => {
                if reader.remaining_len() == 0 {
                    proof {
                        lemma_auto_spec_u64_to_from_le_bytes();
                        assert(stream =~= frame_bytes(container@));
                    }
                    Some(container)
                } else {
                    proof {
                        assert forall|payload: Seq<u8>| fits_frame(payload) implies stream
                            != #[trigger] frame_bytes(payload) by {
                            lemma_frame_then_rest(payload, Seq::empty());
                            assert(frame_bytes(payload) + Seq::<u8>::empty() =~= frame_bytes(payload));
                        }
                    }
                    None
                }
            },
            Err(_) => {
                proof {
                    assert forall|payload: Seq<u8>| fits_frame(payload) implies stream
                        != #[trigger] frame_bytes(payload) by {
                        lemma_frame_then_rest(payload, Seq::empty());
                        assert(frame_bytes(payload) + Seq::<u8>::empty() =~= frame_bytes(payload));
                    }
                }
                None
            },
        }
    }
}

} // verus!
