//! The framing layer: typed commands become exact byte frames in an
//! outgoing queue, and replies are consumed tag-first from an incoming
//! queue.
//!
//! The transport itself is a pair of byte queues rather than a live stream:
//! everything the protocol promises about ordering and framing is stated
//! over these queues, and the embedding program moves the queued bytes over
//! whatever connection it owns (see the accompanying program under `app`).

use vstd::prelude::*;

use crate::error::Error;
use crate::protocol::Command;
use crate::protocol::REPLY_DATA;

verus! {

/// What consuming one synchronous reply (a tag byte, then `len` payload
/// bytes) does to an incoming byte queue: the result of the read and the
/// bytes left over.
///
/// A missing tag leaves the queue untouched; a tag other than the
/// data-follows marker consumes only the tag; a data tag with too few
/// payload bytes behind it consumes only the tag as well.
pub open spec fn reply_outcome(inp: Seq<u8>, len: nat) -> (Result<Seq<u8>, Error>, Seq<u8>) {
    if inp.len() == 0 {
        (Err(Error::Eof), inp)
    } else if inp[0] != REPLY_DATA {
        (Err(Error::Protocol { expected: REPLY_DATA, found: inp[0] }), inp.skip(1))
    } else if inp.len() >= 1 + len {
        (Ok(inp.subrange(1, 1 + len as int)), inp.skip(1 + len as int))
    } else {
        (Err(Error::Eof), inp.skip(1))
    }
}

/// Ordered byte delivery to and from the coprocessor, with command
/// encoding on the outgoing side and exact-length reads on the incoming
/// side.
pub struct Transport {
    outgoing: Vec<u8>,
    incoming: Vec<u8>,
}

impl Transport {
    /// The bytes queued for the coprocessor, oldest first.
    pub closed spec fn out_bytes(&self) -> Seq<u8> {
        self.outgoing@
    }

    /// The bytes received from the coprocessor and not yet consumed,
    /// oldest first.
    pub closed spec fn in_bytes(&self) -> Seq<u8> {
        self.incoming@
    }

    /// A transport with empty queues on both sides.
    pub fn new() -> (t: Transport)
        ensures
            t.out_bytes() == Seq::<u8>::empty(),
            t.in_bytes() == Seq::<u8>::empty(),
    {
        Transport { outgoing: Vec::new(), incoming: Vec::new() }
    }

    /// Serialises `cmd` and appends its frame to the outgoing queue as one
    /// unit, so no other bytes can interleave with the frame.
    pub fn write_command(&mut self, cmd: Command<'_>)
        requires
            cmd.wf(),
        ensures
            final(self).out_bytes() == old(self).out_bytes() + cmd.encoding(),
            final(self).in_bytes() == old(self).in_bytes(),
    {
        let mut frame = crate::protocol::encode_command(cmd);
        self.outgoing.append(&mut frame);
    }

    /// Consumes exactly `n` bytes from the incoming queue, or reports the
    /// end of the stream and leaves the queue untouched when fewer than `n`
    /// bytes are available.
    pub fn read_exact(&mut self, n: usize) -> (r: Result<Vec<u8>, Error>)
        ensures
            final(self).out_bytes() == old(self).out_bytes(),
            n <= old(self).in_bytes().len() ==> {
                &&& r is Ok
                &&& r->Ok_0@ == old(self).in_bytes().take(n as int)
                &&& final(self).in_bytes() == old(self).in_bytes().skip(n as int)
            },
            n > old(self).in_bytes().len() ==> {
                &&& r == Err::<Vec<u8>, Error>(Error::Eof)
                &&& final(self).in_bytes() == old(self).in_bytes()
            },
    {
        if self.incoming.len() < n {
            return Err(Error::Eof);
        }
        let mut taken = self.incoming.split_off(n);
        core::mem::swap(&mut self.incoming, &mut taken);
        assert(taken@ =~= old(self).in_bytes().take(n as int));
        assert(self.incoming@ =~= old(self).in_bytes().skip(n as int));
        Ok(taken)
    }

    /// Consumes one synchronous reply: a tag byte that must be the
    /// data-follows marker, then exactly `len` payload bytes. A wrong tag
    /// is a protocol-integrity error, distinct from stream failures.
    pub fn read_reply(&mut self, len: u8) -> (r: Result<Vec<u8>, Error>)
        ensures
            final(self).out_bytes() == old(self).out_bytes(),
            ({
                let (outcome, rest) = reply_outcome(old(self).in_bytes(), len as nat);
                &&& final(self).in_bytes() == rest
                &&& match r {
                    Ok(payload) => outcome == Ok::<Seq<u8>, Error>(payload@),
                    Err(e) => outcome == Err::<Seq<u8>, Error>(e),
                }
            }),
    {
        let tag_bytes = match self.read_exact(1) {
            Ok(v) => v,
            Err(e) => {
                return Err(e);
            }
        };
        let tag = tag_bytes[0];
        if tag != REPLY_DATA {
            return Err(Error::Protocol { expected: REPLY_DATA, found: tag });
        }
        match self.read_exact(len as usize) {
            Ok(payload) => {
                assert(payload@ =~= old(self).in_bytes().subrange(1, 1 + len as int));
                assert(self.in_bytes() =~= old(self).in_bytes().skip(1 + len as int));
                Ok(payload)
            }
            Err(e) => Err(e),
        }
    }

    /// Hands the whole outgoing queue to the caller, leaving it empty; the
    /// embedding program writes these bytes to the stream connection.
    pub fn take_outgoing(&mut self) -> (r: Vec<u8>)
        ensures
            r@ == old(self).out_bytes(),
            final(self).out_bytes() == Seq::<u8>::empty(),
            final(self).in_bytes() == old(self).in_bytes(),
    {
        let mut taken = Vec::new();
        core::mem::swap(&mut self.outgoing, &mut taken);
        taken
    }

    /// Appends bytes received from the stream connection to the incoming
    /// queue.
    pub fn feed_incoming(&mut self, data: &[u8])
        ensures
            final(self).out_bytes() == old(self).out_bytes(),
            final(self).in_bytes() == old(self).in_bytes() + data@,
    {
        crate::protocol::append_bytes(&mut self.incoming, data);
    }

    /// How many bytes wait in the incoming queue.
    pub fn incoming_len(&self) -> (r: usize)
        ensures
            r == self.in_bytes().len(),
    {
        self.incoming.len()
    }

    /// How many bytes wait in the outgoing queue.
    pub fn outgoing_len(&self) -> (r: usize)
        ensures
            r == self.out_bytes().len(),
    {
        self.outgoing.len()
    }
}

} // verus!
