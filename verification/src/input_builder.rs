//! The binary framing contract between host and guest: an append-only input
//! buffer with explicit framing primitives.  All numerics are little-endian;
//! the guest consumes the buffer positionally.

use crate::bytesutil::{clone_bytes, extend_bytes};
use crate::errors::ReceiptError;
use vstd::bytes::{
    spec_u32_to_le_bytes, spec_u64_from_le_bytes, spec_u64_to_le_bytes, u32_to_le_bytes,
    u64_to_le_bytes,
};
use vstd::prelude::*;
use vstd::string::StringSliceAdditionalSpecFns;

verus! {

/// A length-prefixed frame as the guest reads it: eight little-endian length
/// bytes, then that many payload bytes.
pub open spec fn spec_frame_bytes(b: Seq<u8>) -> Seq<u8> {
    spec_u64_to_le_bytes(b.len() as u64) + b
}

/// What a guest that reads a `u64 LE` length and then that many bytes,
/// starting at `start`, takes from the buffer: the payload and the position
/// just after it.  Nothing if the buffer is too short for either read.
pub open spec fn spec_read_frame(d: Seq<u8>, start: int) -> Option<(Seq<u8>, int)> {
    if 0 <= start && start + 8 <= d.len() {
        let n = spec_u64_from_le_bytes(d.subrange(start, start + 8)) as int;
        if start + 8 + n <= d.len() {
            Some((d.subrange(start + 8, start + 8 + n), start + 8 + n))
        } else {
            None
        }
    } else {
        None
    }
}

/// An append-only builder for the byte stream handed to a guest.
///
/// Pick exactly one input pattern per guest: a single CBOR object
/// (`write_cbor` alone), fixed-width fields only, or framed mixing, where
/// every variable-length payload goes through `write_frame` or
/// `write_cbor_frame` so the guest can read it safely next to fixed-width
/// fields.
pub struct InputBuilder {
    /// The bytes written so far.
    pub data: Vec<u8>,
}

impl View for InputBuilder {
    type V = Seq<u8>;

    open spec fn view(&self) -> Seq<u8> {
        self.data@
    }
}

impl InputBuilder {
    /// A fresh, empty buffer.
    pub fn new() -> (b: InputBuilder)
        ensures
            b@ == Seq::<u8>::empty(),
    {
        InputBuilder { data: Vec::new() }
    }

    /// Append CBOR bytes with no frame.  Legal only when the whole input is
    /// this one CBOR object.
    pub fn write_cbor(&mut self, cbor_bytes: Vec<u8>)
        ensures
            final(self)@ == old(self)@ + cbor_bytes@,
    {
        extend_bytes(&mut self.data, cbor_bytes.as_slice());
    }

    /// Append CBOR bytes behind an eight-byte length frame, safe to mix with
    /// fixed-width fields.
    pub fn write_cbor_frame(&mut self, cbor_bytes: Vec<u8>)
        ensures
            final(self)@ == old(self)@ + spec_frame_bytes(cbor_bytes@),
    {
        self.write_frame(cbor_bytes);
    }

    /// Append a `u32`, little-endian, four bytes.
    pub fn write_u32(&mut self, value: u32)
        ensures
            final(self)@ == old(self)@ + spec_u32_to_le_bytes(value),
    {
        let bytes = u32_to_le_bytes(value);
        extend_bytes(&mut self.data, bytes.as_slice());
    }

    /// Append a `u64`, little-endian, eight bytes.
    pub fn write_u64(&mut self, value: u64)
        ensures
            final(self)@ == old(self)@ + spec_u64_to_le_bytes(value),
    {
        let bytes = u64_to_le_bytes(value);
        extend_bytes(&mut self.data, bytes.as_slice());
    }

    /// Append exactly 32 bytes; anything else is rejected and leaves the
    /// buffer unchanged.
    pub fn write_bytes32(&mut self, data: Vec<u8>) -> (r: Result<(), ReceiptError>)
        ensures
            (r is Ok) <==> data@.len() == 32,
            r is Ok ==> final(self)@ == old(self)@ + data@,
            r matches Err(e) ==> final(self)@ == old(self)@ && e == ReceiptError::InvalidLength,
    {
        if data.len() != 32 {
            return Err(ReceiptError::InvalidLength);
        }
        extend_bytes(&mut self.data, data.as_slice());
        Ok(())
    }

    /// Append a 32-byte image id (an alias of [`InputBuilder::write_bytes32`]).
    pub fn write_image_id(&mut self, image_id: Vec<u8>) -> (r: Result<(), ReceiptError>)
        ensures
            (r is Ok) <==> image_id@.len() == 32,
            r is Ok ==> final(self)@ == old(self)@ + image_id@,
            r matches Err(e) ==> final(self)@ == old(self)@ && e == ReceiptError::InvalidLength,
    {
        self.write_bytes32(image_id)
    }

    /// Append raw bytes with no framing; the guest must know their exact
    /// length.
    pub fn write_raw_bytes(&mut self, data: Vec<u8>)
        ensures
            final(self)@ == old(self)@ + data@,
    {
        extend_bytes(&mut self.data, data.as_slice());
    }

    /// Append a length-prefixed frame: eight little-endian length bytes,
    /// then the payload.
    pub fn write_frame(&mut self, data: Vec<u8>)
        ensures
            final(self)@ == old(self)@ + spec_frame_bytes(data@),
    {
        let len_bytes = u64_to_le_bytes(data.len() as u64);
        extend_bytes(&mut self.data, len_bytes.as_slice());
        extend_bytes(&mut self.data, data.as_slice());
        assert(final(self)@ =~= old(self)@ + spec_frame_bytes(data@));
    }

    /// Append a length-prefixed byte vector, matching the guest's typed read
    /// of one: the same layout as [`InputBuilder::write_frame`].
    pub fn write_vec_bytes(&mut self, data: Vec<u8>)
        ensures
            final(self)@ == old(self)@ + spec_frame_bytes(data@),
    {
        self.write_frame(data);
    }

    /// Append a string as a length-prefixed frame of its UTF-8 bytes,
    /// matching the guest's typed read of a string.
    pub fn write_string(&mut self, s: &str)
        ensures
            final(self)@ == old(self)@ + spec_frame_bytes(s.spec_bytes()),
    {
        let bytes = s.as_bytes();
        let len_bytes = u64_to_le_bytes(bytes.len() as u64);
        extend_bytes(&mut self.data, len_bytes.as_slice());
        extend_bytes(&mut self.data, bytes);
        assert(final(self)@ =~= old(self)@ + spec_frame_bytes(s.spec_bytes()));
    }

    /// The bytes written so far, ready to hand to a proving request.
    pub fn build(&self) -> (out: Vec<u8>)
        ensures
            out@ == self@,
    {
        clone_bytes(&self.data)
    }

    /// The number of bytes written so far.
    pub fn size(&self) -> (n: usize)
        ensures
            n == self@.len(),
    {
        self.data.len()
    }

    /// Discard everything written so far.
    pub fn clear(&mut self)
        ensures
            final(self)@ == Seq::<u8>::empty(),
    {
        self.data.clear();
    }
}

/// Frame parseability: whatever was written before a frame and after it, a
/// guest that reads a `u64 LE` length and then that many bytes, starting
/// where the frame starts, reads back exactly the frame's payload.
pub proof fn lemma_frame_parseable(prefix: Seq<u8>, payload: Seq<u8>, rest: Seq<u8>)
    requires
        payload.len() <= u64::MAX,
    ensures
        spec_read_frame(prefix + spec_frame_bytes(payload) + rest, prefix.len() as int) == Some(
            (payload, prefix.len() as int + 8 + payload.len() as int),
        ),
{
    vstd::bytes::lemma_auto_spec_u64_to_from_le_bytes();
    let d = prefix + spec_frame_bytes(payload) + rest;
    let start = prefix.len() as int;
    assert(d.len() == prefix.len() + 8 + payload.len() + rest.len());
    assert(d.subrange(start, start + 8) =~= spec_u64_to_le_bytes(payload.len() as u64));
    assert(spec_u64_from_le_bytes(d.subrange(start, start + 8)) == payload.len() as u64);
    assert(d.subrange(start + 8, start + 8 + payload.len() as int) =~= payload);
}

/// Input concatenation: a buffer built from two `write_u32` calls holds the
/// two four-byte little-endian encodings, one after the other and nothing
/// else.  Each write's contract says it appends exactly its encoding; this
/// law closes the chain from the empty buffer.
pub proof fn lemma_write_u32_pair(a: u32, b: u32)
    ensures
        Seq::<u8>::empty() + spec_u32_to_le_bytes(a) + spec_u32_to_le_bytes(b)
            == spec_u32_to_le_bytes(a) + spec_u32_to_le_bytes(b),
        (spec_u32_to_le_bytes(a) + spec_u32_to_le_bytes(b)).len() == 8,
{
    vstd::bytes::lemma_auto_spec_u32_to_from_le_bytes();
    assert(Seq::<u8>::empty() + spec_u32_to_le_bytes(a) + spec_u32_to_le_bytes(b)
        =~= spec_u32_to_le_bytes(a) + spec_u32_to_le_bytes(b));
}

} // verus!
