//! A buffering decorator around a raw connection.
//!
//! The classifier must read the ClientHello without consuming it: the
//! same initial bytes must still be there for the full handshake.  The
//! stream buffers everything the transport delivers; peeking copies the
//! unread bytes and consumes nothing, so the handshake that follows reads
//! the identical sequence.

use vstd::prelude::*;

use crate::hello::ConnectionClass;
use crate::hello::HelloError;
use crate::hello::classify_alpn;
use crate::hello::parse_client_hello;
use crate::hello::spec_is_probe;
use crate::hello::spec_parse_hello;

verus! {

/// A buffered view of one accepted connection's inbound bytes.
pub struct PeekStream {
    data: Vec<u8>,
    consumed: usize,
}

impl PeekStream {
    /// Every byte the transport has delivered so far.
    pub closed spec fn data_seq(self) -> Seq<u8> {
        self.data@
    }

    /// How many of the delivered bytes have been handed out by `read_all`.
    pub closed spec fn pos(self) -> int {
        self.consumed as int
    }

    /// The read position never passes the end of the buffer.
    pub open spec fn wf(self) -> bool {
        self.pos() <= self.data_seq().len()
    }

    /// The bytes not yet consumed: what both the classifier and the
    /// subsequent handshake observe.
    pub open spec fn remaining(self) -> Seq<u8> {
        self.data_seq().skip(self.pos())
    }

    /// An empty stream.
    pub fn new() -> (r: Self)
        ensures
            r.wf(),
            r.data_seq() == Seq::<u8>::empty(),
            r.pos() == 0,
    {
        let r = PeekStream { data: Vec::new(), consumed: 0 };
        proof {
            assert(r.data@ =~= Seq::<u8>::empty());
        }
        r
    }

    /// Buffers bytes the transport delivered, consuming nothing.
    pub fn feed(&mut self, b: &[u8])
        requires
            old(self).wf(),
        ensures
            final(self).wf(),
            final(self).data_seq() == old(self).data_seq() + b@,
            final(self).pos() == old(self).pos(),
    {
        let n = b.len();
        let mut i: usize = 0;
        while i < n
            invariant
                n == b@.len(),
                i <= n,
                self.data@ == old(self).data@ + b@.take(i as int),
                self.consumed == old(self).consumed,
                old(self).wf(),
            decreases n - i,
        {
            proof {
                assert((old(self).data@ + b@.take(i as int)).push(b@[i as int]) =~= old(
                    self,
                ).data@ + b@.take(i + 1));
            }
            self.data.push(b[i]);
            i = i + 1;
        }
        proof {
            assert(old(self).data@ + b@.take(n as int) =~= old(self).data@ + b@);
        }
    }

    /// Copies the unread bytes without consuming them: the stream is
    /// untouched, and what the caller gets is exactly what a subsequent
    /// `read_all` will hand the handshake.
    pub fn peek(&self) -> (r: Vec<u8>)
        requires
            self.wf(),
        ensures
            r@ == self.remaining(),
    {
        let mut r: Vec<u8> = Vec::new();
        let mut i: usize = self.consumed;
        let n = self.data.len();
        while i < n
            invariant
                self.consumed <= i <= n,
                n == self.data@.len(),
                r@ == self.data@.subrange(self.consumed as int, i as int),
            decreases n - i,
        {
            proof {
                assert(self.data@.subrange(self.consumed as int, i as int).push(
                    self.data@[i as int],
                ) =~= self.data@.subrange(self.consumed as int, i + 1));
            }
            r.push(self.data[i]);
            i = i + 1;
        }
        proof {
            assert(r@ =~= self.remaining());
        }
        r
    }

    /// Consumes and returns every unread byte, for the handshake.
    pub fn read_all(&mut self) -> (r: Vec<u8>)
        requires
            old(self).wf(),
        ensures
            final(self).wf(),
            r@ == old(self).remaining(),
            final(self).data_seq() == old(self).data_seq(),
            final(self).remaining() == Seq::<u8>::empty(),
    {
        let r = self.peek();
        self.consumed = self.data.len();
        proof {
            assert(self.remaining() =~= Seq::<u8>::empty());
        }
        r
    }
}

/// Classifies a connection from its buffered bytes and then hands out the
/// full unread byte sequence for the handshake.  The bytes the handshake
/// receives are exactly the bytes the stream held before classification:
/// peeking the ClientHello consumed nothing the handshake needs, so a
/// handshake that would have succeeded on the raw stream still succeeds
/// after classification, on either path.
pub fn classify_and_take(s: &mut PeekStream) -> (r: (Result<ConnectionClass, HelloError>, Vec<
    u8,
>))
    requires
        old(s).wf(),
    ensures
        r.1@ == old(s).remaining(),
        (match spec_parse_hello(old(s).remaining()) {
            Ok(h) => r.0 == Ok::<ConnectionClass, HelloError>(
                if spec_is_probe(h.0) {
                    ConnectionClass::Probe
                } else {
                    ConnectionClass::Ordinary
                },
            ),
            Err(e) => r.0 == Err::<ConnectionClass, HelloError>(e),
        }),
{
    let peeked = s.peek();
    let class = match parse_client_hello(peeked.as_slice()) {
        Ok(summary) => Ok(classify_alpn(&summary.alpn)),
        Err(e) => Err(e),
    };
    let bytes = s.read_all();
    (class, bytes)
}

} // verus!
