//! The event channel of one request: the rules by which an application may
//! read the request body and emit its response.
//!
//! The channel holds no I/O. Each operation says whether the call is
//! allowed and what the driver must then do on the wire.

use vstd::prelude::*;
use crate::buf::Data;
use crate::stream::SWITCHING_PROTOCOLS;

verus! {

/// Where the sending side of a channel stands.
#[derive(Clone, Copy, Debug, PartialEq, Eq, Structural)]
pub enum State {
    /// No response head was sent.
    Init,
    /// The head was sent and the body is open.
    Streaming,
    /// The head switched protocols; the byte stream is the application's.
    Upgraded,
    /// The response has ended.
    Done,
}

/// Why the channel refused a call.
#[derive(Clone, Copy, Debug, PartialEq, Eq, Structural)]
pub enum EventError {
    /// A response head was already sent.
    HeadAlreadySent,
    /// No response head was sent yet.
    HeadNotSent,
    /// The response has ended.
    StreamEnded,
    /// The byte stream was handed over; no frame may follow.
    AlreadyUpgraded,
    /// HTTP/2 streams do not switch protocols.
    UpgradeRefused,
    /// The request body has not yielded the end of its data.
    DataNotEnded,
    /// The stream was reset, with this reason.
    Reset(u32),
}

/// What the driver does with a head that the channel accepted.
#[derive(Clone, Copy, Debug, PartialEq, Eq, Structural)]
pub enum Commit {
    /// Send the head with an empty body.
    Empty,
    /// Send the head and open the body.
    Streaming,
    /// Send the head with an empty body and await the upgraded byte stream.
    Upgrade,
}

/// What sending a head does to the sending side: the outcome and the state
/// after it. `upgradable` says whether the protocol can switch protocols.
pub open spec fn head_outcome(state: State, upgradable: bool, status: u16, end_of_stream: bool) -> (
    Result<Commit, EventError>,
    State,
) {
    if state != State::Init {
        (Err(EventError::HeadAlreadySent), state)
    } else if status == SWITCHING_PROTOCOLS {
        if upgradable {
            (Ok(Commit::Upgrade), State::Upgraded)
        } else {
            (Err(EventError::UpgradeRefused), state)
        }
    } else if end_of_stream {
        (Ok(Commit::Empty), State::Done)
    } else {
        (Ok(Commit::Streaming), State::Streaming)
    }
}

/// What sending data or trailers does to the sending side. `ends` says
/// whether the frame carries end-of-stream.
pub open spec fn frame_outcome(state: State, ends: bool) -> (Result<(), EventError>, State) {
    match state {
        State::Init => (Err(EventError::HeadNotSent), state),
        State::Upgraded => (Err(EventError::AlreadyUpgraded), state),
        State::Done => (Err(EventError::StreamEnded), state),
        State::Streaming => (
            Ok(()),
            if ends {
                State::Done
            } else {
                State::Streaming
            },
        ),
    }
}

/// Decides on a head and moves the state.
fn send_head(state: &mut State, upgradable: bool, status: u16, end_of_stream: bool) -> (r: Result<
    Commit,
    EventError,
>)
    ensures
        r == head_outcome(*old(state), upgradable, status, end_of_stream).0,
        *final(state) == head_outcome(*old(state), upgradable, status, end_of_stream).1,
{
    match *state {
        State::Init => {
            if status == SWITCHING_PROTOCOLS {
                if upgradable {
                    *state = State::Upgraded;
                    Ok(Commit::Upgrade)
                } else {
                    Err(EventError::UpgradeRefused)
                }
            } else if end_of_stream {
                *state = State::Done;
                Ok(Commit::Empty)
            } else {
                *state = State::Streaming;
                Ok(Commit::Streaming)
            }
        },
        _ => Err(EventError::HeadAlreadySent),
    }
}

/// Decides on a frame of the body and moves the state.
fn send_frame(state: &mut State, ends: bool) -> (r: Result<(), EventError>)
    ensures
        r == frame_outcome(*old(state), ends).0,
        *final(state) == frame_outcome(*old(state), ends).1,
{
    match *state {
        State::Init => Err(EventError::HeadNotSent),
        State::Upgraded => Err(EventError::AlreadyUpgraded),
        State::Done => Err(EventError::StreamEnded),
        State::Streaming => {
            if ends {
                *state = State::Done;
            }
            Ok(())
        },
    }
}

/// The event channel of a request on a connection that can switch
/// protocols.
#[derive(Clone, Copy, Debug)]
pub struct Events {
    pub state: State,
    /// Whether the request body has yielded the end of its data.
    pub end_of_data: bool,
}

impl Events {
    /// The channel of a request that was just received.
    pub fn new() -> (e: Events)
        ensures
            e == (Events { state: State::Init, end_of_data: false }),
    {
        Events { state: State::Init, end_of_data: false }
    }

    /// Records what the request body yielded: a chunk, or the end of its
    /// data. Returns the number of bytes that the chunk holds.
    pub fn data(&mut self, chunk: &Option<Data>) -> (len: usize)
        ensures
            final(self).state == old(self).state,
            final(self).end_of_data == (old(self).end_of_data || chunk is None),
            len == match chunk {
                Some(data) => data@.len(),
                None => 0,
            },
    {
        match chunk {
            Some(data) => data.remaining(),
            None => {
                self.end_of_data = true;
                0
            },
        }
    }

    /// Whether the request's trailers may be read: only after the body has
    /// yielded the end of its data.
    pub fn trailers(&self) -> (r: Result<(), EventError>)
        ensures
            r == if self.end_of_data {
                Ok::<(), EventError>(())
            } else {
                Err(EventError::DataNotEnded)
            },
    {
        if self.end_of_data {
            Ok(())
        } else {
            Err(EventError::DataNotEnded)
        }
    }

    /// Sends a whole response at once: allowed where no head was sent, and
    /// the response has then ended.
    pub fn send_response(&mut self) -> (r: Result<(), EventError>)
        ensures
            final(self).end_of_data == old(self).end_of_data,
            old(self).state == State::Init ==> r is Ok && final(self).state == State::Done,
            old(self).state != State::Init ==> r == Err::<(), EventError>(
                EventError::HeadAlreadySent,
            ) && final(self).state == old(self).state,
    {
        match self.state {
            State::Init => {
                self.state = State::Done;
                Ok(())
            },
            _ => Err(EventError::HeadAlreadySent),
        }
    }

    /// Sends the response head. It is accepted once: with status 101 the
    /// stream is upgraded, else its body is open unless `end_of_stream`.
    pub fn start_send_response(&mut self, status: u16, end_of_stream: bool) -> (r: Result<
        Commit,
        EventError,
    >)
        ensures
            r == head_outcome(old(self).state, true, status, end_of_stream).0,
            final(self).state == head_outcome(old(self).state, true, status, end_of_stream).1,
            final(self).end_of_data == old(self).end_of_data,
    {
        send_head(&mut self.state, true, status, end_of_stream)
    }

    /// Sends a chunk of the body: allowed while the body is open, which it
    /// no longer is after a chunk with `end_of_stream`.
    pub fn send_data(&mut self, end_of_stream: bool) -> (r: Result<(), EventError>)
        ensures
            r == frame_outcome(old(self).state, end_of_stream).0,
            final(self).state == frame_outcome(old(self).state, end_of_stream).1,
            final(self).end_of_data == old(self).end_of_data,
    {
        send_frame(&mut self.state, end_of_stream)
    }

    /// Sends the trailers, which end the response: allowed while the body
    /// is open.
    pub fn send_trailers(&mut self) -> (r: Result<(), EventError>)
        ensures
            r == frame_outcome(old(self).state, true).0,
            final(self).state == frame_outcome(old(self).state, true).1,
            final(self).end_of_data == old(self).end_of_data,
    {
        send_frame(&mut self.state, true)
    }
}

impl Default for Events {
    fn default() -> (e: Events)
        ensures
            e == (Events { state: State::Init, end_of_data: false }),
    {
        Events::new()
    }
}

/// The state of an HTTP/2 stream, as the events on it give it.
#[derive(Clone, Copy, Debug, PartialEq, Eq, Structural)]
pub enum StreamState {
    /// No request head has arrived.
    Idle,
    /// Both sides may send.
    Open,
    /// The response has ended; the request has not.
    HalfClosedLocal,
    /// The request has ended; the response has not.
    HalfClosedRemote,
    /// Both sides have ended.
    Closed,
    /// The stream was reset, with this reason.
    Reset(u32),
}

/// The state of a stream on which a request head has arrived or not,
/// whose request and response have ended or not, and which was reset or
/// not. A reset outweighs everything else.
pub open spec fn derived(
    head_received: bool,
    remote_ended: bool,
    local_ended: bool,
    reset: Option<u32>,
) -> StreamState {
    match reset {
        Some(reason) => StreamState::Reset(reason),
        None => if !head_received {
            StreamState::Idle
        } else if remote_ended && local_ended {
            StreamState::Closed
        } else if remote_ended {
            StreamState::HalfClosedRemote
        } else if local_ended {
            StreamState::HalfClosedLocal
        } else {
            StreamState::Open
        },
    }
}

/// Derives the state of a stream from what was observed on it.
pub fn stream_state(
    head_received: bool,
    remote_ended: bool,
    local_ended: bool,
    reset: Option<u32>,
) -> (s: StreamState)
    ensures
        s == derived(head_received, remote_ended, local_ended, reset),
{
    match reset {
        Some(reason) => StreamState::Reset(reason),
        None => {
            if !head_received {
                StreamState::Idle
            } else if remote_ended && local_ended {
                StreamState::Closed
            } else if remote_ended {
                StreamState::HalfClosedRemote
            } else if local_ended {
                StreamState::HalfClosedLocal
            } else {
                StreamState::Open
            }
        },
    }
}

/// The event channel of a request on an HTTP/2 stream.
#[derive(Clone, Copy, Debug)]
pub struct H2Eventer {
    pub state: State,
    /// Whether the request body has yielded the end of its data.
    pub end_of_data: bool,
    /// The reason with which the stream was reset, if it was.
    pub reset: Option<u32>,
}

impl H2Eventer {
    /// What sending a head does on this channel: nothing is accepted on a
    /// stream that was reset, and no head switches protocols.
    pub open spec fn head(self, status: u16) -> (Result<Commit, EventError>, State) {
        match self.reset {
            Some(reason) => (Err(EventError::Reset(reason)), self.state),
            None => head_outcome(self.state, false, status, false),
        }
    }

    /// What sending data or trailers does on this channel: nothing is
    /// accepted on a stream that was reset.
    pub open spec fn frame(self, ends: bool) -> (Result<(), EventError>, State) {
        match self.reset {
            Some(reason) => (Err(EventError::Reset(reason)), self.state),
            None => frame_outcome(self.state, ends),
        }
    }

    /// The channel of a stream that was just accepted.
    pub fn new() -> (e: H2Eventer)
        ensures
            e == (H2Eventer { state: State::Init, end_of_data: false, reset: None }),
    {
        H2Eventer { state: State::Init, end_of_data: false, reset: None }
    }

    /// Records that the stream was reset. The first reason stays.
    pub fn on_reset(&mut self, reason: u32)
        ensures
            final(self).state == old(self).state,
            final(self).end_of_data == old(self).end_of_data,
            final(self).reset == if old(self).reset is Some {
                old(self).reset
            } else {
                Some(reason)
            },
    {
        if self.reset.is_none() {
            self.reset = Some(reason);
        }
    }

    /// The state of the stream: open until the request or the response has
    /// ended, closed when both have, reset once it was reset.
    pub fn stream_state(&self) -> (s: StreamState)
        ensures
            s == derived(true, self.end_of_data, self.state == State::Done, self.reset),
    {
        let local_ended = match self.state {
            State::Done => true,
            _ => false,
        };
        stream_state(true, self.end_of_data, local_ended, self.reset)
    }

    /// Records what the receive stream yielded: a chunk, or the end of the
    /// data. Returns the flow-control capacity to release to the peer: the
    /// number of bytes that the chunk holds.
    pub fn data(&mut self, chunk: &Option<Data>) -> (release: usize)
        ensures
            final(self).state == old(self).state,
            final(self).reset == old(self).reset,
            final(self).end_of_data == (old(self).end_of_data || chunk is None),
            release == match chunk {
                Some(data) => data@.len(),
                None => 0,
            },
    {
        match chunk {
            Some(data) => data.remaining(),
            None => {
                self.end_of_data = true;
                0
            },
        }
    }

    /// Whether the request's trailers may be read: only after the receive
    /// stream has yielded the end of its data.
    pub fn trailers(&self) -> (r: Result<(), EventError>)
        ensures
            r == if self.end_of_data {
                Ok::<(), EventError>(())
            } else {
                Err(EventError::DataNotEnded)
            },
    {
        if self.end_of_data {
            Ok(())
        } else {
            Err(EventError::DataNotEnded)
        }
    }

    /// Sends the response head with the body open. It is accepted once, and
    /// never with status 101.
    pub fn start_send_response(&mut self, status: u16) -> (r: Result<Commit, EventError>)
        ensures
            r == old(self).head(status).0,
            final(self).state == old(self).head(status).1,
            final(self).end_of_data == old(self).end_of_data,
            final(self).reset == old(self).reset,
    {
        match self.reset {
            Some(reason) => Err(EventError::Reset(reason)),
            None => send_head(&mut self.state, false, status, false),
        }
    }

    /// Sends a chunk of the body: allowed while the body is open. Returns
    /// the capacity to reserve and await before the chunk is handed to the
    /// protocol engine: the number of bytes that it holds.
    pub fn send_data(&mut self, data: &Data, end_of_stream: bool) -> (r: Result<usize, EventError>)
        ensures
            r is Ok <==> old(self).frame(end_of_stream).0 is Ok,
            r matches Ok(reserve) ==> reserve == data@.len(),
            r matches Err(e) ==> old(self).frame(end_of_stream).0 == Err::<(), EventError>(e),
            final(self).state == old(self).frame(end_of_stream).1,
            final(self).end_of_data == old(self).end_of_data,
            final(self).reset == old(self).reset,
    {
        match self.reset {
            Some(reason) => Err(EventError::Reset(reason)),
            None => match send_frame(&mut self.state, end_of_stream) {
                Ok(_) => Ok(data.remaining()),
                Err(e) => Err(e),
            },
        }
    }

    /// Sends the trailers, which end the response: allowed while the body
    /// is open.
    pub fn send_trailers(&mut self) -> (r: Result<(), EventError>)
        ensures
            r == old(self).frame(true).0,
            final(self).state == old(self).frame(true).1,
            final(self).end_of_data == old(self).end_of_data,
            final(self).reset == old(self).reset,
    {
        match self.reset {
            Some(reason) => Err(EventError::Reset(reason)),
            None => send_frame(&mut self.state, true),
        }
    }
}

/// A response head is sent at most once: once a head was accepted, no call
/// on the sending side brings the channel back to where a head is accepted,
/// so every later head is refused.
pub proof fn lemma_head_sent_once(
    state: State,
    upgradable: bool,
    status: u16,
    end_of_stream: bool,
    ends: bool,
)
    ensures
        head_outcome(state, upgradable, status, end_of_stream).0 is Ok ==> state == State::Init
            && head_outcome(state, upgradable, status, end_of_stream).1 != State::Init,
        state != State::Init ==> head_outcome(state, upgradable, status, end_of_stream).0 == Err::<
            Commit,
            EventError,
        >(EventError::HeadAlreadySent) && head_outcome(state, upgradable, status, end_of_stream).1
            == state && frame_outcome(state, ends).1 != State::Init,
{
}

/// Once a call has carried end-of-stream the response has ended, and a
/// response that has ended refuses every head, chunk and trailer and stays
/// ended.
pub proof fn lemma_end_of_stream_monotone(
    state: State,
    upgradable: bool,
    status: u16,
    end_of_stream: bool,
    ends: bool,
)
    ensures
        frame_outcome(state, true).0 is Ok ==> frame_outcome(state, true).1 == State::Done,
        head_outcome(state, upgradable, status, true).0 is Ok && status != SWITCHING_PROTOCOLS
            ==> head_outcome(state, upgradable, status, true).1 == State::Done,
        state == State::Done ==> frame_outcome(state, ends).0 is Err && frame_outcome(
            state,
            ends,
        ).1 == State::Done && head_outcome(state, upgradable, status, end_of_stream).0 is Err
            && head_outcome(state, upgradable, status, end_of_stream).1 == State::Done,
{
}

/// On an HTTP/2 stream a head is sent at most once, nothing follows the
/// end of the response, and nothing is accepted once the stream was reset.
pub proof fn lemma_h2_channel_is_monotone(
    channel: H2Eventer,
    status: u16,
    ends: bool,
)
    ensures
        channel.head(status).0 is Ok ==> channel.state == State::Init && channel.head(status).1
            != State::Init,
        channel.state != State::Init ==> channel.head(status).0 is Err && channel.head(status).1
            == channel.state && channel.frame(ends).1 != State::Init,
        channel.frame(true).0 is Ok ==> channel.frame(true).1 == State::Done,
        channel.state == State::Done ==> channel.frame(ends).0 is Err && channel.frame(ends).1
            == State::Done && channel.head(status).0 is Err,
        channel.reset is Some ==> channel.head(status).0 is Err && channel.frame(ends).0 is Err
            && channel.head(status).1 == channel.state && channel.frame(ends).1 == channel.state,
        status == SWITCHING_PROTOCOLS ==> channel.head(status).0 is Err,
{
}

/// A call on the sending side of a channel.
pub enum Call {
    /// A response head, with its status and whether it ends the response.
    Head { status: u16, end_of_stream: bool },
    /// A chunk of the body, or the trailers, and whether it ends the
    /// response.
    Frame { ends: bool },
}

impl Call {
    /// Whether the channel accepts the call in `state`.
    pub open spec fn accepted(self, state: State, upgradable: bool) -> bool {
        match self {
            Call::Head { status, end_of_stream } => head_outcome(
                state,
                upgradable,
                status,
                end_of_stream,
            ).0 is Ok,
            Call::Frame { ends } => frame_outcome(state, ends).0 is Ok,
        }
    }

    /// The state in which the call leaves a channel that was in `state`.
    pub open spec fn leaves(self, state: State, upgradable: bool) -> State {
        match self {
            Call::Head { status, end_of_stream } => head_outcome(
                state,
                upgradable,
                status,
                end_of_stream,
            ).1,
            Call::Frame { ends } => frame_outcome(state, ends).1,
        }
    }

    /// Whether the call, once accepted, ends the response.
    pub open spec fn ends_response(self) -> bool {
        match self {
            Call::Head { status, end_of_stream } => end_of_stream && status != SWITCHING_PROTOCOLS,
            Call::Frame { ends } => ends,
        }
    }
}

/// The state of a channel after the calls, made one after the other on a
/// channel that was in `state`.
pub open spec fn after_calls(state: State, upgradable: bool, calls: Seq<Call>) -> State
    decreases calls.len(),
{
    if calls.len() == 0 {
        state
    } else {
        calls.last().leaves(after_calls(state, upgradable, calls.drop_last()), upgradable)
    }
}

/// The state before the call at `at` follows from the state before the
/// call in front of it.
proof fn lemma_after_calls_step(state: State, upgradable: bool, calls: Seq<Call>, at: int)
    requires
        0 <= at < calls.len(),
    ensures
        after_calls(state, upgradable, calls.take(at + 1)) == calls[at].leaves(
            after_calls(state, upgradable, calls.take(at)),
            upgradable,
        ),
{
    assert(calls.take(at + 1).drop_last() =~= calls.take(at));
}

/// After an accepted head the channel never awaits a head again.
proof fn lemma_head_stays_sent(
    state: State,
    upgradable: bool,
    calls: Seq<Call>,
    first: int,
    at: int,
)
    requires
        0 <= first < at <= calls.len(),
        calls[first] is Head,
        calls[first].accepted(after_calls(state, upgradable, calls.take(first)), upgradable),
    ensures
        after_calls(state, upgradable, calls.take(at)) != State::Init,
    decreases at - first,
{
    lemma_after_calls_step(state, upgradable, calls, at - 1);
    if at - 1 > first {
        lemma_head_stays_sent(state, upgradable, calls, first, at - 1);
    }
}

/// After an accepted call that ends the response the channel stays ended.
proof fn lemma_end_stays(state: State, upgradable: bool, calls: Seq<Call>, last: int, at: int)
    requires
        0 <= last < at <= calls.len(),
        calls[last].ends_response(),
        calls[last].accepted(after_calls(state, upgradable, calls.take(last)), upgradable),
    ensures
        after_calls(state, upgradable, calls.take(at)) == State::Done,
    decreases at - last,
{
    lemma_after_calls_step(state, upgradable, calls, at - 1);
    if at - 1 > last {
        lemma_end_stays(state, upgradable, calls, last, at - 1);
    }
}

/// In any sequence of calls on one channel, a head that comes after an
/// accepted head is refused.
pub proof fn lemma_second_head_is_refused(
    state: State,
    upgradable: bool,
    calls: Seq<Call>,
    first: int,
    second: int,
)
    requires
        0 <= first < second < calls.len(),
        calls[first] is Head,
        calls[second] is Head,
        calls[first].accepted(after_calls(state, upgradable, calls.take(first)), upgradable),
    ensures
        !calls[second].accepted(after_calls(state, upgradable, calls.take(second)), upgradable),
{
    lemma_head_stays_sent(state, upgradable, calls, first, second);
}

/// In any sequence of calls on one channel, every call that comes after an
/// accepted call which ended the response is refused.
pub proof fn lemma_nothing_follows_end_of_stream(
    state: State,
    upgradable: bool,
    calls: Seq<Call>,
    last: int,
    later: int,
)
    requires
        0 <= last < later < calls.len(),
        calls[last].ends_response(),
        calls[last].accepted(after_calls(state, upgradable, calls.take(last)), upgradable),
    ensures
        !calls[later].accepted(after_calls(state, upgradable, calls.take(later)), upgradable),
{
    lemma_end_stays(state, upgradable, calls, last, later);
}

} // verus!
