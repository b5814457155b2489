//! Frames that arrive and leave in pieces.
//!
//! The transport hands over the bytes of a frame in chunks, as they arrive,
//! and says with the last chunk that the frame ends there. It takes the bytes
//! of a frame that leaves in the same way, as many at a time as it has room
//! for. How a frame is cut into chunks makes no difference.
use crate::codec::lemma_concat_assoc;
use crate::error::{Error, ErrorKind};
use crate::node_id::LocalNodeId;
use crate::rpc::{decode_cast, frame_of, ProcedureId, RpcMessage};
use vstd::prelude::*;
use vstd::slice::slice_subrange;

verus! {

/// The number of bytes that are still needed.
#[derive(Debug, Clone, Copy, PartialEq, Eq)]
pub enum ByteCount {
    /// So many bytes.
    Finite(u64),
    /// Nobody knows yet.
    Unknown,
}

/// A decoder of the frames of one procedure, which takes the bytes of a
/// frame chunk by chunk.
#[derive(Debug)]
pub struct FrameDecoder {
    procedure: ProcedureId,
    buf: Vec<u8>,
    eos: bool,
}

impl FrameDecoder {
    /// The procedure whose frames are decoded.
    pub closed spec fn spec_procedure(self) -> ProcedureId {
        self.procedure
    }

    /// The bytes of the current frame that have been taken so far.
    pub closed spec fn buffered(self) -> Seq<u8> {
        self.buf@
    }

    /// Whether the end of the current frame has been seen.
    pub closed spec fn at_end(self) -> bool {
        self.eos
    }

    /// Makes a decoder of the frames of a procedure.
    pub fn new(procedure: ProcedureId) -> (r: Self)
        ensures
            r.spec_procedure() == procedure,
            r.buffered() == Seq::<u8>::empty(),
            !r.at_end(),
    {
        FrameDecoder { procedure, buf: Vec::new(), eos: false }
    }

    /// Takes the next chunk of the current frame; `eos` says that the frame
    /// ends with this chunk. Returns the number of bytes taken: the whole
    /// chunk, or nothing where the end of the frame has been seen before.
    pub fn decode(&mut self, buf: &[u8], eos: bool) -> (r: usize)
        ensures
            final(self).spec_procedure() == old(self).spec_procedure(),
            old(self).at_end() ==> r == 0 && *final(self) == *old(self),
            !old(self).at_end() ==> {
                &&& r == buf@.len()
                &&& final(self).buffered() == old(self).buffered() + buf@
                &&& final(self).at_end() == eos
            },
    {
        if self.eos {
            return 0;
        }
        self.buf.extend_from_slice(buf);
        self.eos = eos;
        proof {
            assert(self.buf@ =~= old(self).buf@ + buf@);
        }
        buf.len()
    }

    /// Ends the current frame where its bytes end, and returns the
    /// destination and the message that it holds. The decoder is ready for
    /// the next frame after that, also where the bytes made no frame.
    pub fn finish_decoding(&mut self) -> (r: Result<(LocalNodeId, RpcMessage), Error>)
        ensures
            final(self).spec_procedure() == old(self).spec_procedure(),
            final(self).buffered() == Seq::<u8>::empty(),
            !final(self).at_end(),
            match r {
                Ok((destination, m)) => frame_of(old(self).spec_procedure(), old(self).buffered())
                    == Some((destination, m@)),
                Err(e) => frame_of(old(self).spec_procedure(), old(self).buffered()) is None
                    && e.kind == ErrorKind::InvalidInput,
            },
    {
        let r = decode_cast(self.procedure, self.buf.as_slice());
        self.buf = Vec::new();
        self.eos = false;
        r
    }

    /// Returns the number of bytes that are still needed for the current
    /// frame: none after its end, and unknown before.
    pub fn requiring_bytes(&self) -> (r: ByteCount)
        ensures
            r == if self.at_end() {
                ByteCount::Finite(0)
            } else {
                ByteCount::Unknown
            },
    {
        if self.eos {
            ByteCount::Finite(0)
        } else {
            ByteCount::Unknown
        }
    }

    /// Returns `true` if the end of the current frame has been seen.
    pub fn is_idle(&self) -> (r: bool)
        ensures
            r == self.at_end(),
    {
        self.eos
    }

    /// How a frame is cut into chunks makes no difference: two chunks, one
    /// after the other, leave the same bytes as the two in one.
    pub proof fn lemma_chunks_join(before: Seq<u8>, first: Seq<u8>, second: Seq<u8>)
        ensures
            (before + first) + second == before + (first + second),
    {
        lemma_concat_assoc(before, first, second);
    }
}

/// An encoder that hands out the bytes of a frame chunk by chunk.
#[derive(Debug)]
pub struct FrameEncoder {
    bytes: Vec<u8>,
    offset: usize,
}

impl FrameEncoder {
    /// The bytes of the current frame that have not been handed out yet.
    pub closed spec fn pending(self) -> Seq<u8> {
        if self.offset <= self.bytes@.len() {
            self.bytes@.subrange(self.offset as int, self.bytes@.len() as int)
        } else {
            Seq::<u8>::empty()
        }
    }

    /// Makes an encoder with no frame.
    pub fn new() -> (r: Self)
        ensures
            r.pending() == Seq::<u8>::empty(),
    {
        FrameEncoder { bytes: Vec::new(), offset: 0 }
    }

    /// Takes a frame to hand out. An encoder that has not handed out all of
    /// its frame takes no other: the state is inconsistent.
    pub fn start_encoding(&mut self, frame: Vec<u8>) -> (r: Result<(), Error>)
        ensures
            match r {
                Ok(()) => old(self).pending().len() == 0 && final(self).pending() == frame@,
                Err(e) => old(self).pending().len() > 0 && e.kind == ErrorKind::InconsistentState
                    && *final(self) == *old(self),
            },
    {
        if self.offset < self.bytes.len() {
            return Err(Error::new(ErrorKind::InconsistentState));
        }
        self.bytes = frame;
        self.offset = 0;
        proof {
            assert(self.pending() =~= frame@);
        }
        Ok(())
    }

    /// Returns the next chunk: at most `max` of the bytes that have not been
    /// handed out yet, from the first of them on. They count as handed out
    /// after that.
    pub fn encode(&mut self, max: usize) -> (r: &[u8])
        ensures
            r@.len() == if max <= old(self).pending().len() {
                max as int
            } else {
                old(self).pending().len() as int
            },
            old(self).pending() == r@ + final(self).pending(),
    {
        let len: usize = self.bytes.len();
        let start: usize = if self.offset <= len {
            self.offset
        } else {
            len
        };
        let left: usize = len - start;
        let n: usize = if max <= left {
            max
        } else {
            left
        };
        self.offset = start + n;
        let chunk = slice_subrange(self.bytes.as_slice(), start, start + n);
        proof {
            assert(old(self).pending() =~= chunk@ + self.pending());
        }
        chunk
    }

    /// Returns the number of bytes that have not been handed out yet.
    pub fn exact_requiring_bytes(&self) -> (r: u64)
        ensures
            r == self.pending().len(),
    {
        let len: usize = self.bytes.len();
        if self.offset <= len {
            (len - self.offset) as u64
        } else {
            0
        }
    }

    /// Returns the number of bytes that have not been handed out yet.
    pub fn requiring_bytes(&self) -> (r: ByteCount)
        ensures
            r == ByteCount::Finite(self.pending().len() as u64),
    {
        ByteCount::Finite(self.exact_requiring_bytes())
    }

    /// Returns `true` if all bytes have been handed out.
    pub fn is_idle(&self) -> (r: bool)
        ensures
            r == (self.pending().len() == 0),
    {
        self.offset >= self.bytes.len()
    }
}

} // verus!
