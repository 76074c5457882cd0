//! Framing of the byte stream into discrete messages.
//!
//! The codec owns the staging buffer and the buffer-size ceiling.  Writing
//! produces the exact frame bytes (header, then payload) for the caller to
//! send; reading accepts stream bytes chunk by chunk, refusing to grow the
//! buffer past the ceiling, and finally decodes the declared kind.  The
//! ceiling check here is the single defence against unbounded buffering of
//! an attacker-controlled length field.

use vstd::prelude::*;

verus! {

use vstd::slice::slice_to_vec;
use crate::message::CodecError;
use crate::message::DeserializedMessage;
use crate::message::Header;
use crate::message::Message;
use crate::message::Serializeable;
use crate::message::spec_decode_message;
use crate::message::spec_encode_header;

/// Frames messages over an abstract byte stream, holding at most `limit`
/// staged bytes at any time.
pub struct Codec {
    buffer: Vec<u8>,
    limit: usize,
}

impl Codec {
    /// The bytes staged for the read in progress.
    pub closed spec fn buffer_spec(&self) -> Seq<u8> {
        self.buffer@
    }

    /// The configured buffer-size ceiling.
    pub closed spec fn limit_spec(&self) -> usize {
        self.limit
    }

    /// The staging buffer never exceeds the ceiling.
    pub open spec fn wf(&self) -> bool {
        self.buffer_spec().len() <= self.limit_spec()
    }

    pub fn new(limit: usize) -> (c: Codec)
        ensures
            c.wf(),
            c.limit_spec() == limit,
            c.buffer_spec() == Seq::<u8>::empty(),
    {
        Codec { buffer: Vec::new(), limit }
    }

    /// Produces the frame for a message: the five header bytes followed by
    /// the encoded payload, exactly as they must appear on the wire.
    pub fn write<T: Serializeable>(&mut self, msg: Message<T>) -> (out: Vec<u8>)
        ensures
            out@ == spec_encode_header(msg.spec_header()) + msg.spec_payload().spec_encoded(),
            out@.len() == 5 + msg.spec_payload().spec_encoded().len(),
            final(self).limit_spec() == old(self).limit_spec(),
            final(self).buffer_spec() == Seq::<u8>::empty(),
            final(self).wf(),
    {
        self.buffer.clear();
        let mut out = msg.header().encode();
        let mut pb = msg.payload().encode();
        out.append(&mut pb);
        out
    }

    /// Starts a fresh read by emptying the staging buffer.
    pub fn begin_read(&mut self)
        ensures
            final(self).buffer_spec() == Seq::<u8>::empty(),
            final(self).limit_spec() == old(self).limit_spec(),
            final(self).wf(),
    {
        self.buffer.clear();
    }

    /// Accepts bytes arriving from the stream.  The chunk is staged if and
    /// only if it fits under the ceiling; otherwise nothing changes and the
    /// read has failed with resource exhaustion.
    pub fn accept(&mut self, chunk: &[u8]) -> (r: Result<(), CodecError>)
        requires
            old(self).wf(),
        ensures
            final(self).limit_spec() == old(self).limit_spec(),
            old(self).buffer_spec().len() + chunk@.len() <= old(self).limit_spec() ==> r is Ok
                && final(self).buffer_spec() == old(self).buffer_spec() + chunk@,
            old(self).buffer_spec().len() + chunk@.len() > old(self).limit_spec() ==> r == Err::<
                (),
                CodecError,
            >(CodecError::MemoryLimit) && final(self).buffer_spec() == old(self).buffer_spec(),
            final(self).wf(),
    {
        if chunk.len() > self.limit || self.buffer.len() > self.limit - chunk.len() {
            assert(self.buffer_spec().len() + chunk@.len() > self.limit_spec());
            return Err(CodecError::MemoryLimit);
        }
        let mut v = slice_to_vec(chunk);
        self.buffer.append(&mut v);
        Ok(())
    }

    /// Finishes a read: the staged bytes must be exactly the payload the
    /// header declared, and they are decoded under the header's kind tag.
    pub fn finish_read(&self, header: &Header) -> (r: Result<DeserializedMessage, CodecError>)
        ensures
            self.buffer_spec().len() != header.length ==> r == Err::<
                DeserializedMessage,
                CodecError,
            >(CodecError::Decode),
            self.buffer_spec().len() == header.length ==> (match r {
                Ok(m) => spec_decode_message(header.kind, self.buffer_spec()) == Some(m@),
                Err(e) => spec_decode_message(header.kind, self.buffer_spec()) is None && e
                    == CodecError::Decode,
            }),
    {
        if self.buffer.len() != header.length as usize {
            return Err(CodecError::Decode);
        }
        header.kind.parse_from_bytes(self.buffer.as_slice())
    }
}

/// The memory ceiling is enforced: a well-formed codec holds at most
/// `limit` staged bytes, so a payload whose declared length exceeds the
/// ceiling can never be accumulated in full — the read fails with a
/// resource-exhaustion error instead.
pub proof fn lemma_memory_ceiling(c: &Codec, declared: nat)
    requires
        c.wf(),
        declared > c.limit_spec(),
    ensures
        c.buffer_spec().len() != declared,
{
}

} // verus!
