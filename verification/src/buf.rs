//! Chunks of body bytes and the buffers handed to the protocol engine.

use vstd::prelude::*;

verus! {

/// `bytes::Bytes`, a shared buffer of bytes, carried as it is.
#[verifier::external_type_specification]
#[verifier::external_body]
pub struct ExBytes(bytes::Bytes);

/// The bytes that a `bytes::Bytes` still holds, front first.
pub uninterp spec fn bytes_contents(b: bytes::Bytes) -> Seq<u8>;

/// `Bytes::len`: the number of bytes the buffer holds.
#[verifier::external_body]
fn bytes_len(b: &bytes::Bytes) -> (n: usize)
    ensures
        n == bytes_contents(*b).len(),
{
    b.len()
}

/// `AsRef<[u8]>` of `Bytes`: the slice holds exactly the buffer's bytes.
#[verifier::external_body]
pub(crate) fn bytes_as_slice(b: &bytes::Bytes) -> (s: &[u8])
    ensures
        s@ == bytes_contents(*b),
{
    b.as_ref()
}

/// `Buf::advance` on `Bytes`: drops the first `cnt` bytes. The outside
/// function panics when `cnt` exceeds the length, which `requires` excludes.
#[verifier::external_body]
fn bytes_advance(b: &mut bytes::Bytes, cnt: usize)
    requires
        cnt <= bytes_contents(*old(b)).len(),
    ensures
        bytes_contents(*final(b)) == bytes_contents(*old(b)).skip(cnt as int),
{
    bytes::Buf::advance(b, cnt)
}

/// A chunk of bytes received from, or to be sent to, the peer.
pub struct Data(pub bytes::Bytes);

impl View for Data {
    type V = Seq<u8>;

    open spec fn view(&self) -> Seq<u8> {
        bytes_contents(self.0)
    }
}

impl Data {
    /// The number of bytes left in the chunk.
    pub fn remaining(&self) -> (n: usize)
        ensures
            n == self@.len(),
    {
        bytes_len(&self.0)
    }

    /// The bytes left in the chunk.
    pub fn bytes(&self) -> (s: &[u8])
        ensures
            s@ == self@,
    {
        bytes_as_slice(&self.0)
    }

    /// Drops the first `cnt` bytes of the chunk.
    pub fn advance(&mut self, cnt: usize)
        requires
            cnt <= old(self)@.len(),
        ensures
            final(self)@ == old(self)@.skip(cnt as int),
    {
        bytes_advance(&mut self.0, cnt)
    }
}

/// What a stream hands to the protocol engine: a chunk, or the zero-length
/// sentinel that stands for a final empty DATA frame.
pub enum SendBuf {
    Data(Data),
    Eos,
}

impl View for SendBuf {
    type V = Seq<u8>;

    open spec fn view(&self) -> Seq<u8> {
        match self {
            SendBuf::Data(data) => data@,
            SendBuf::Eos => Seq::empty(),
        }
    }
}

impl SendBuf {
    /// The number of bytes left: zero for the sentinel.
    pub fn remaining(&self) -> (n: usize)
        ensures
            n == self@.len(),
    {
        match self {
            SendBuf::Data(data) => data.remaining(),
            SendBuf::Eos => 0,
        }
    }

    /// The bytes left: none for the sentinel.
    pub fn bytes(&self) -> (s: &[u8])
        ensures
            s@ == self@,
    {
        match self {
            SendBuf::Data(data) => data.bytes(),
            SendBuf::Eos => &[],
        }
    }

    /// Drops the first `cnt` bytes of a chunk; the sentinel stays as it is,
    /// whatever `cnt` is.
    pub fn advance(&mut self, cnt: usize)
        requires
            *old(self) is Data ==> cnt <= old(self)@.len(),
        ensures
            *old(self) is Data ==> *final(self) is Data && final(self)@ == old(self)@.skip(
                cnt as int,
            ),
            *old(self) is Eos ==> *final(self) is Eos,
    {
        match self {
            SendBuf::Data(data) => data.advance(cnt),
            SendBuf::Eos => {},
        }
    }
}

} // verus!
