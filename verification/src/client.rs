//! The client's side of an exchange: the response that a service produced,
//! and the bytes of its body gathered chunk by chunk.

use vstd::prelude::*;
use vstd::utf8::{decode_utf8, valid_utf8};
use crate::buf::{bytes_as_slice, bytes_contents};

verus! {

/// A response: its status, its header fields and its body.
pub struct Response<B> {
    pub status: u16,
    pub headers: http::HeaderMap<http::HeaderValue>,
    pub body: B,
}

/// The result of a service's handler once it has completed.
pub struct AwaitResponse<B> {
    pub response: Response<B>,
}

/// What polling a body for its next chunk gave.
pub enum BodyPoll<E> {
    Pending,
    Chunk(bytes::Bytes),
    End,
    Failed(E),
}

/// Where gathering a body stands after an event.
pub enum Gathered<E> {
    /// Wait for the next wake-up.
    Pending,
    /// The chunk was taken; poll the body again.
    Continue,
    /// The body has ended; these are its chunks.
    Ready(ResponseData),
    /// The body failed.
    Failed(E),
}

/// The task that gathers the chunks of a response body.
pub struct SendResponseBody {
    pub chunks: Vec<bytes::Bytes>,
}

/// The chunks that a response body yielded, in the order it yielded them.
pub struct ResponseData {
    pub chunks: Vec<bytes::Bytes>,
}

/// The bytes of each chunk.
pub open spec fn contents(chunks: Seq<bytes::Bytes>) -> Seq<Seq<u8>> {
    Seq::new(chunks.len(), |i: int| bytes_contents(chunks[i]))
}

/// The chunks laid end to end.
pub open spec fn join(chunks: Seq<Seq<u8>>) -> Seq<u8>
    decreases chunks.len(),
{
    if chunks.len() == 0 {
        Seq::empty()
    } else {
        join(chunks.drop_last()) + chunks.last()
    }
}

/// The sum of the lengths.
pub open spec fn total(lens: Seq<nat>) -> nat
    decreases lens.len(),
{
    if lens.len() == 0 {
        0
    } else {
        total(lens.drop_last()) + lens.last()
    }
}

/// `bytes` cut into consecutive pieces of the given lengths.
pub open spec fn split(bytes: Seq<u8>, lens: Seq<nat>) -> Seq<Seq<u8>>
    recommends
        total(lens) == bytes.len(),
    decreases lens.len(),
{
    if lens.len() == 0 {
        Seq::empty()
    } else {
        let cut = bytes.len() - lens.last();
        split(bytes.take(cut), lens.drop_last()).push(bytes.skip(cut))
    }
}

/// However a body's bytes are cut into chunks, the chunks laid end to end
/// are the body's bytes.
pub proof fn lemma_join_of_split(bytes: Seq<u8>, lens: Seq<nat>)
    requires
        total(lens) == bytes.len(),
    ensures
        split(bytes, lens).len() == lens.len(),
        join(split(bytes, lens)) == bytes,
    decreases lens.len(),
{
    if lens.len() > 0 {
        let cut = bytes.len() - lens.last();
        let front = split(bytes.take(cut), lens.drop_last());
        lemma_join_of_split(bytes.take(cut), lens.drop_last());
        let pieces = front.push(bytes.skip(cut));
        assert(pieces.drop_last() =~= front);
    }
}

/// Gathering one more chunk appends its bytes to what was gathered.
pub proof fn lemma_join_push(chunks: Seq<Seq<u8>>, chunk: Seq<u8>)
    ensures
        join(chunks.push(chunk)) == join(chunks) + chunk,
{
    assert(chunks.push(chunk).drop_last() =~= chunks);
}

/// `String::from_utf8`: accepts exactly the byte strings that are valid
/// UTF-8, and the text is what they encode.
#[verifier::external_body]
fn string_from_utf8(bytes: Vec<u8>) -> (text: Option<String>)
    ensures
        text is Some <==> valid_utf8(bytes@),
        text is Some ==> text->0@ == decode_utf8(bytes@),
{
    String::from_utf8(bytes).ok()
}

/// The body of a response is not valid UTF-8.
#[derive(Clone, Copy, Debug, PartialEq, Eq, Structural)]
pub struct Utf8Error;

impl<B> AwaitResponse<B> {
    /// Wraps the response of a completed handler.
    pub fn new(response: Response<B>) -> (r: Self)
        ensures
            r.response == response,
    {
        AwaitResponse { response }
    }

    /// The status of the response.
    pub fn status(&self) -> (s: u16)
        ensures
            s == self.response.status,
    {
        self.response.status
    }

    /// The response itself.
    pub fn into_response(self) -> (r: Response<B>)
        ensures
            r == self.response,
    {
        self.response
    }

    /// Parts the body from the response and starts to gather it: the body
    /// is to be polled, and each outcome handed to the task.
    pub fn send_body(self) -> (r: (B, SendResponseBody))
        ensures
            r.0 == self.response.body,
            r.1.chunks@.len() == 0,
    {
        (self.response.body, SendResponseBody { chunks: Vec::new() })
    }
}

impl SendResponseBody {
    /// Advances the task by what the body yielded. A chunk is kept behind
    /// those gathered so far; the end hands all of them out and leaves the
    /// task empty; anything else leaves the task as it is.
    pub fn poll<E>(&mut self, event: BodyPoll<E>) -> (r: Gathered<E>)
        ensures
            match event {
                BodyPoll::Pending => r == Gathered::<E>::Pending && final(self).chunks@ == old(
                    self,
                ).chunks@,
                BodyPoll::Chunk(chunk) => r == Gathered::<E>::Continue && final(self).chunks@
                    == old(self).chunks@.push(chunk),
                BodyPoll::End => r matches Gathered::Ready(data) && data.chunks@ == old(
                    self,
                ).chunks@ && final(self).chunks@.len() == 0,
                BodyPoll::Failed(err) => r == Gathered::Failed(err) && final(self).chunks@ == old(
                    self,
                ).chunks@,
            },
    {
        match event {
            BodyPoll::Pending => Gathered::Pending,
            BodyPoll::Chunk(chunk) => {
                self.chunks.push(chunk);
                Gathered::Continue
            },
            BodyPoll::End => {
                let mut chunks: Vec<bytes::Bytes> = Vec::new();
                std::mem::swap(&mut chunks, &mut self.chunks);
                Gathered::Ready(ResponseData { chunks })
            },
            BodyPoll::Failed(err) => Gathered::Failed(err),
        }
    }
}

impl View for ResponseData {
    type V = Seq<u8>;

    /// The bytes of the body: its chunks laid end to end.
    open spec fn view(&self) -> Seq<u8> {
        join(contents(self.chunks@))
    }
}

impl ResponseData {
    /// The bytes of the body.
    pub fn to_bytes(&self) -> (bytes: Vec<u8>)
        ensures
            bytes@ == self@,
    {
        let mut bytes: Vec<u8> = Vec::new();
        let mut i: usize = 0;
        while i < self.chunks.len()
            invariant
                i <= self.chunks@.len(),
                bytes@ == join(contents(self.chunks@.take(i as int))),
            decreases self.chunks@.len() - i,
        {
            let chunk = bytes_as_slice(&self.chunks[i]);
            bytes.extend_from_slice(chunk);
            proof {
                let before = contents(self.chunks@.take(i as int));
                assert(contents(self.chunks@.take(i + 1)) =~= before.push(chunk@));
                lemma_join_push(before, chunk@);
            }
            i += 1;
        }
        assert(self.chunks@.take(i as int) =~= self.chunks@);
        bytes
    }

    /// The body as text, where its bytes are valid UTF-8.
    pub fn to_utf8(&self) -> (text: Result<String, Utf8Error>)
        ensures
            text is Ok <==> valid_utf8(self@),
            text is Ok ==> text->Ok_0@ == decode_utf8(self@),
    {
        match string_from_utf8(self.to_bytes()) {
            Some(text) => Ok(text),
            None => Err(Utf8Error),
        }
    }
}

} // verus!
