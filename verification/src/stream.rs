//! The task that answers one stream: it waits for the application's
//! response head, commits it, and then streams the body and its trailers.
//!
//! The task does no I/O. Whoever drives it polls the application and the
//! protocol engine, hands each outcome in as an event, and carries out the
//! step that comes back.

use vstd::prelude::*;
use crate::buf::{Data, SendBuf};
use crate::client::join;
use crate::error::{BodyError, H2Error, H2ErrorKind, ProtocolError, INTERNAL_ERROR};
use crate::head::{
    completes, header_fields, imf_fixdate, synthesize_headers, synthesized, HeadError, DATE_LIMIT,
};

verus! {

/// The status with which an application asks to switch protocols.
pub const SWITCHING_PROTOCOLS: u16 = 101;

/// A response head as the application produced it, with what its body
/// reports of itself.
pub struct ResponseHead {
    pub status: u16,
    pub headers: http::HeaderMap<http::HeaderValue>,
    /// The exact length of the body, where it is known.
    pub content_length: Option<u64>,
    /// Whether the body has neither data nor trailers.
    pub end_of_stream: bool,
}

impl ResponseHead {
    /// Whether the body ends with the head though it declared bytes to
    /// come.
    pub open spec fn ends_short(self) -> bool {
        self.end_of_stream && self.content_length is Some && self.content_length->0 != 0
    }
}

/// What polling a stream for a reset by the peer gave.
pub enum ResetPoll {
    /// The stream is not reset.
    Pending,
    /// The peer reset the stream, with this reason.
    Reset(u32),
    /// The protocol engine failed, with its reason code where it has one.
    Failed(Option<u32>),
}

/// What the driver observed while the task awaits the response head.
pub enum RespondEvent<E> {
    /// The application has no head yet; the stream was polled for a reset.
    Pending(ResetPoll),
    /// The application's handler failed.
    Failed(E),
    /// The application produced its head.
    Ready(ResponseHead),
    /// The protocol engine took the head that the task committed.
    Sent,
    /// The protocol engine refused the head that the task committed, with
    /// its reason code where it has one.
    Refused(Option<u32>),
}

/// What the driver observed while the task streams the body.
pub enum SendEvent<E> {
    /// The peer reset the stream.
    Reset(u32),
    /// Polling for a reset failed in the protocol engine.
    ResetFailed(Option<u32>),
    /// The stream is not reset and the body has nothing yet.
    Pending,
    /// The body yielded a chunk; the flag is its end-of-stream hint after it.
    Data(Data, bool),
    /// The body yielded the end of its data; the flag is its hint after it.
    End(bool),
    /// The body yielded trailers.
    Trailers(http::HeaderMap<http::HeaderValue>),
    /// The body has no trailers.
    NoTrailers,
    /// The body failed.
    Failed(E),
    /// The protocol engine refused the frame of the last step, with its
    /// reason code where it has one.
    Refused(Option<u32>),
}

/// What the driver must do next for the stream.
pub enum Step<E> {
    /// Wait for the next wake-up.
    Pending,
    /// Go on: poll the body and hand the outcome in.
    Continue,
    /// Emit RST_STREAM with the code, if there is one, and drop the task.
    Fail { reset: Option<u32>, error: H2Error<E> },
    /// Commit the response head, and hand in whether the protocol engine
    /// took it.
    SendResponse { status: u16, headers: http::HeaderMap<http::HeaderValue>, end_of_stream: bool },
    /// Reserve as much capacity as the buffer has bytes, await it, and send
    /// the buffer as DATA.
    SendData { buf: SendBuf, end_of_stream: bool },
    /// Send the trailers, which end the stream.
    SendTrailers(http::HeaderMap<http::HeaderValue>),
    /// The task has finished; there is nothing to do.
    Idle,
}

impl<E> Step<E> {
    /// Whether the step puts a frame with END_STREAM on the wire.
    pub open spec fn ends_stream(self) -> bool {
        match self {
            Step::SendResponse { end_of_stream, .. } => end_of_stream,
            Step::SendData { end_of_stream, .. } => end_of_stream,
            Step::SendTrailers(_) => true,
            _ => false,
        }
    }

    /// Whether the step puts a frame of the response on the wire.
    pub open spec fn emits(self) -> bool {
        self is SendResponse || self is SendData || self is SendTrailers
    }

    /// The flow-control capacity that the step needs: the bytes of the
    /// buffer it sends.
    pub open spec fn capacity(self) -> nat {
        match self {
            Step::SendData { buf, .. } => buf@.len(),
            _ => 0,
        }
    }

    /// The capacity to reserve, and to await, before the step is carried
    /// out.
    pub fn reserve(&self) -> (n: usize)
        ensures
            n == self.capacity(),
    {
        match self {
            Step::SendData { buf, .. } => buf.remaining(),
            _ => 0,
        }
    }

    /// The failure with which a stream is reset for an internal error.
    pub open spec fn internal(error: H2Error<E>) -> Step<E> {
        Step::Fail { reset: Some(INTERNAL_ERROR), error }
    }

    /// The failure that emits nothing.
    pub open spec fn silent(error: H2Error<E>) -> Step<E> {
        Step::Fail { reset: None, error }
    }
}

/// The state of a task that streams a body.
#[derive(Clone, Copy, Debug)]
pub struct SendBody {
    /// Whether the body has yielded the end of its data.
    pub end_of_data: bool,
    /// How many bytes the body still owes, where it declared a length.
    pub owed: Option<u64>,
    /// Whether the task has finished, by completion or by failure.
    pub closed: bool,
}

/// A protocol-layer error as a stream error.
pub open spec fn protocol<E>(err: ProtocolError) -> H2Error<E> {
    H2Error { kind: H2ErrorKind::Protocol(err) }
}

/// A body error as a stream error.
pub open spec fn body<E>(err: BodyError<E>) -> H2Error<E> {
    H2Error { kind: H2ErrorKind::Body(err) }
}

impl SendBody {
    /// The task for a body that declared `content_length`.
    pub fn new(content_length: Option<u64>) -> (s: SendBody)
        ensures
            s == (SendBody { end_of_data: false, owed: content_length, closed: false }),
    {
        SendBody { end_of_data: false, owed: content_length, closed: false }
    }

    /// What the body still owes after a chunk of `len` bytes.
    pub open spec fn owed_after(self, len: nat) -> Option<u64> {
        match self.owed {
            Some(owed) => Some((owed - len) as u64),
            None => None,
        }
    }

    /// Whether a chunk of `len` bytes breaks the declared length: it
    /// overruns it, or it is the last and leaves bytes owed.
    pub open spec fn breaks_length(self, len: nat, end_of_stream: bool) -> bool {
        self.owed is Some && (len > self.owed->0 || (end_of_stream && len != self.owed->0))
    }

    /// Whether the body, ending now, falls short of the declared length.
    pub open spec fn falls_short(self) -> bool {
        self.owed is Some && self.owed->0 != 0
    }

    /// The task in the state that ends it.
    pub open spec fn finished(self) -> SendBody {
        SendBody { closed: true, ..self }
    }

    /// The state after `event`.
    pub open spec fn next<E>(self, event: SendEvent<E>) -> SendBody {
        if self.closed {
            self
        } else {
            match event {
                SendEvent::Pending => self,
                SendEvent::Data(data, end_of_stream) => {
                    let after = SendBody { owed: self.owed_after(data@.len()), ..self };
                    if self.end_of_data || self.breaks_length(data@.len(), end_of_stream) {
                        self.finished()
                    } else if end_of_stream {
                        after.finished()
                    } else {
                        after
                    }
                },
                SendEvent::End(end_of_stream) => {
                    if self.end_of_data || self.falls_short() {
                        self.finished()
                    } else {
                        SendBody { end_of_data: true, closed: end_of_stream, ..self }
                    }
                },
                _ => self.finished(),
            }
        }
    }

    /// The step that answers `event`.
    pub open spec fn step<E>(self, event: SendEvent<E>) -> Step<E> {
        if self.closed {
            Step::Idle
        } else {
            match event {
                SendEvent::Reset(reason) => Step::silent(protocol(ProtocolError::Reset(reason))),
                SendEvent::ResetFailed(code) => Step::silent(
                    protocol(ProtocolError::Engine(code)),
                ),
                SendEvent::Refused(code) => Step::silent(protocol(ProtocolError::Engine(code))),
                SendEvent::Pending => Step::Pending,
                SendEvent::Failed(err) => Step::internal(body(BodyError::Failed(err))),
                SendEvent::Data(data, end_of_stream) => {
                    if self.end_of_data {
                        Step::internal(body(BodyError::OutOfOrder))
                    } else if self.breaks_length(data@.len(), end_of_stream) {
                        Step::internal(body(BodyError::LengthMismatch))
                    } else {
                        Step::SendData { buf: SendBuf::Data(data), end_of_stream }
                    }
                },
                SendEvent::End(end_of_stream) => {
                    if self.end_of_data {
                        Step::internal(body(BodyError::OutOfOrder))
                    } else if self.falls_short() {
                        Step::internal(body(BodyError::LengthMismatch))
                    } else {
                        Step::SendData { buf: SendBuf::Eos, end_of_stream }
                    }
                },
                SendEvent::Trailers(trailers) => {
                    if self.end_of_data {
                        Step::SendTrailers(trailers)
                    } else {
                        Step::internal(body(BodyError::OutOfOrder))
                    }
                },
                SendEvent::NoTrailers => {
                    if self.end_of_data {
                        Step::SendData { buf: SendBuf::Eos, end_of_stream: true }
                    } else {
                        Step::internal(body(BodyError::OutOfOrder))
                    }
                },
            }
        }
    }

    /// Whether the driver is to poll the body for trailers rather than data.
    pub fn wants_trailers(&self) -> (b: bool)
        ensures
            b == (!self.closed && self.end_of_data),
    {
        !self.closed && self.end_of_data
    }

    /// Whether the task has finished.
    pub fn is_closed(&self) -> (b: bool)
        ensures
            b == self.closed,
    {
        self.closed
    }

    /// Ends the task for a failure of the body: the stream is to be reset
    /// for an internal error.
    fn on_service_error<E>(&mut self, err: BodyError<E>) -> (step: Step<E>)
        ensures
            *final(self) == old(self).finished(),
            step == Step::internal(body(err)),
    {
        self.closed = true;
        Step::Fail { reset: Some(INTERNAL_ERROR), error: H2Error::new_body(err) }
    }

    /// Ends the task for an error of the protocol layer: nothing is emitted.
    fn on_protocol_error<E>(&mut self, err: ProtocolError) -> (step: Step<E>)
        ensures
            *final(self) == old(self).finished(),
            step == Step::<E>::silent(protocol(err)),
    {
        self.closed = true;
        Step::Fail { reset: None, error: H2Error::new_protocol(err) }
    }

    /// Hands a chunk to the protocol engine.
    fn send_data<E>(&mut self, data: Data, end_of_stream: bool) -> (step: Step<E>)
        requires
            !old(self).closed,
            !old(self).end_of_data,
        ensures
            *final(self) == old(self).next(SendEvent::<E>::Data(data, end_of_stream)),
            step == old(self).step(SendEvent::<E>::Data(data, end_of_stream)),
    {
        let len = data.remaining();
        match self.owed {
            Some(owed) => {
                if len as u64 > owed {
                    return self.on_service_error(BodyError::LengthMismatch);
                }
                let left: u64 = owed - len as u64;
                if end_of_stream && left != 0 {
                    return self.on_service_error(BodyError::LengthMismatch);
                }
                self.owed = Some(left);
            },
            None => {},
        }
        if end_of_stream {
            self.closed = true;
        }
        Step::SendData { buf: SendBuf::Data(data), end_of_stream }
    }

    /// Hands the zero-length sentinel to the protocol engine.
    fn send_eos<E>(&mut self, end_of_stream: bool) -> (step: Step<E>)
        requires
            !old(self).closed,
        ensures
            *final(self) == if end_of_stream {
                old(self).finished()
            } else {
                *old(self)
            },
            step == (Step::<E>::SendData { buf: SendBuf::Eos, end_of_stream }),
    {
        if end_of_stream {
            self.closed = true;
        }
        Step::SendData { buf: SendBuf::Eos, end_of_stream }
    }

    /// Advances the task by one event. Once the task has finished it
    /// answers every event with `Idle`.
    pub fn poll_send<E>(&mut self, event: SendEvent<E>) -> (step: Step<E>)
        ensures
            *final(self) == old(self).next(event),
            step == old(self).step(event),
    {
        if self.closed {
            return Step::Idle;
        }
        match event {
            SendEvent::Reset(reason) => self.on_protocol_error(ProtocolError::Reset(reason)),
            SendEvent::ResetFailed(code) => self.on_protocol_error(ProtocolError::Engine(code)),
            SendEvent::Refused(code) => self.on_protocol_error(ProtocolError::Engine(code)),
            SendEvent::Pending => Step::Pending,
            SendEvent::Failed(err) => self.on_service_error(BodyError::Failed(err)),
            SendEvent::Data(data, end_of_stream) => {
                if self.end_of_data {
                    self.on_service_error(BodyError::OutOfOrder)
                } else {
                    self.send_data(data, end_of_stream)
                }
            },
            SendEvent::End(end_of_stream) => {
                if self.end_of_data {
                    self.on_service_error(BodyError::OutOfOrder)
                } else if self.owed.is_some() && self.owed.unwrap() != 0 {
                    self.on_service_error(BodyError::LengthMismatch)
                } else {
                    self.end_of_data = true;
                    self.send_eos(end_of_stream)
                }
            },
            SendEvent::Trailers(trailers) => {
                if self.end_of_data {
                    self.closed = true;
                    Step::SendTrailers(trailers)
                } else {
                    self.on_service_error(BodyError::OutOfOrder)
                }
            },
            SendEvent::NoTrailers => {
                if self.end_of_data {
                    self.send_eos(true)
                } else {
                    self.on_service_error(BodyError::OutOfOrder)
                }
            },
        }
    }
}

/// An application error as a stream error.
pub open spec fn service<E>(err: E) -> H2Error<E> {
    H2Error { kind: H2ErrorKind::Service(err) }
}

/// Where the task for one stream stands.
#[derive(Clone, Copy, Debug)]
pub enum BackgroundState {
    /// It awaits the application's response head.
    Responding,
    /// It has committed the head and awaits whether the protocol engine
    /// took it. The fields are what the body reported of itself.
    Committing { content_length: Option<u64>, end_of_stream: bool },
    /// The head is sent and the body is being streamed.
    Sending(SendBody),
    /// It has finished, by completion or by failure.
    Done,
}

impl BackgroundState {
    /// Whether the task may still put a frame of the response on the wire.
    pub open spec fn open(self) -> bool {
        match self {
            BackgroundState::Responding => true,
            BackgroundState::Committing { end_of_stream, .. } => !end_of_stream,
            BackgroundState::Sending(send) => !send.closed,
            BackgroundState::Done => false,
        }
    }

    /// Whether the task has committed its head.
    pub open spec fn past_head(self) -> bool {
        !(self is Responding)
    }
}

/// The state in which a task goes on once its head is sent.
pub open spec fn after_head(content_length: Option<u64>, end_of_stream: bool) -> BackgroundState {
    if end_of_stream {
        BackgroundState::Done
    } else {
        BackgroundState::Sending(
            SendBody { end_of_data: false, owed: content_length, closed: false },
        )
    }
}

/// The failure that answers an event which the task's phase does not allow.
pub open spec fn unexpected<E>() -> Step<E> {
    Step::internal(protocol(ProtocolError::Unexpected))
}

/// Whether `step` and `next` commit the head `head` at the instant `now`:
/// the status and the flag are the application's, the fields are completed.
pub open spec fn commits<E>(
    head: ResponseHead,
    now: u64,
    step: Step<E>,
    next: BackgroundState,
) -> bool {
    &&& step matches Step::SendResponse { status, headers, end_of_stream }
    &&& status == head.status
    &&& end_of_stream == head.end_of_stream
    &&& header_fields(headers) == synthesized(
        header_fields(head.headers),
        imf_fixdate(now),
        head.content_length,
    )
    &&& next == (BackgroundState::Committing {
        content_length: head.content_length,
        end_of_stream: head.end_of_stream,
    })
}

/// Whether a task that awaits the head may answer `event` at the instant
/// `now` with `step` and go on in `next`. Every event but a head has one
/// answer. A head that asks to switch protocols, or whose body ends with
/// it short of the length it declared, resets the stream. Any other head
/// is committed wherever its map takes the added fields; only a map that
/// may refuse one leaves open whether the stream is reset instead.
pub open spec fn responds<E>(
    event: RespondEvent<E>,
    now: u64,
    step: Step<E>,
    next: BackgroundState,
) -> bool {
    match event {
        RespondEvent::Pending(ResetPoll::Pending) => step == Step::<E>::Pending
            && next == BackgroundState::Responding,
        RespondEvent::Pending(ResetPoll::Reset(reason)) => step == Step::<E>::silent(
            protocol(ProtocolError::Reset(reason)),
        ) && next == BackgroundState::Done,
        RespondEvent::Pending(ResetPoll::Failed(code)) => step == Step::<E>::silent(
            protocol(ProtocolError::Engine(code)),
        ) && next == BackgroundState::Done,
        RespondEvent::Failed(err) => step == Step::internal(service(err)) && next
            == BackgroundState::Done,
        RespondEvent::Ready(head) => if head.status == SWITCHING_PROTOCOLS {
            step == Step::<E>::internal(protocol(ProtocolError::Upgrade)) && next
                == BackgroundState::Done
        } else if head.ends_short() {
            step == Step::<E>::internal(body(BodyError::LengthMismatch)) && next
                == BackgroundState::Done
        } else if completes(
            header_fields(head.headers),
            imf_fixdate(now),
            head.content_length,
        ) {
            commits(head, now, step, next)
        } else {
            ||| commits(head, now, step, next)
            ||| step == Step::<E>::internal(protocol(ProtocolError::HeadTooLarge)) && next
                == BackgroundState::Done
        },
        _ => step == unexpected::<E>() && next == BackgroundState::Done,
    }
}

/// The answer of a task that has committed its head to `event`: when the
/// engine took the head the task is done, or goes on to the body; when the
/// engine refused it the stream is reset for an internal error.
pub open spec fn committed<E>(
    content_length: Option<u64>,
    end_of_stream: bool,
    event: RespondEvent<E>,
) -> (Step<E>, BackgroundState) {
    match event {
        RespondEvent::Sent => (
            if end_of_stream {
                Step::Idle
            } else {
                Step::Continue
            },
            after_head(content_length, end_of_stream),
        ),
        RespondEvent::Refused(code) => (
            Step::internal(protocol(ProtocolError::Engine(code))),
            BackgroundState::Done,
        ),
        _ => (unexpected::<E>(), BackgroundState::Done),
    }
}

/// The failure that resets the stream for an internal error.
fn fail_internal<E>(error: H2Error<E>) -> (r: (Step<E>, BackgroundState))
    ensures
        r.0 == Step::internal(error),
        r.1 == BackgroundState::Done,
{
    (Step::Fail { reset: Some(INTERNAL_ERROR), error }, BackgroundState::Done)
}

/// The failure that emits nothing.
fn fail_silent<E>(error: H2Error<E>) -> (r: (Step<E>, BackgroundState))
    ensures
        r.0 == Step::silent(error),
        r.1 == BackgroundState::Done,
{
    (Step::Fail { reset: None, error }, BackgroundState::Done)
}

/// Decides what becomes of a head whose fields were completed, or could not
/// be: it is committed, or the stream is reset for an internal error.
pub fn commit_head<E>(
    status: u16,
    headers: http::HeaderMap<http::HeaderValue>,
    content_length: Option<u64>,
    end_of_stream: bool,
    completed: Result<(), HeadError>,
) -> (r: (Step<E>, BackgroundState))
    ensures
        completed is Ok ==> r.0 == (Step::<E>::SendResponse { status, headers, end_of_stream })
            && r.1 == (BackgroundState::Committing { content_length, end_of_stream }),
        completed is Err ==> r.0 == Step::<E>::internal(protocol(ProtocolError::HeadTooLarge))
            && r.1 == BackgroundState::Done,
{
    match completed {
        Ok(_) => (
            Step::SendResponse { status, headers, end_of_stream },
            BackgroundState::Committing { content_length, end_of_stream },
        ),
        Err(_) => fail_internal(H2Error::new_protocol(ProtocolError::HeadTooLarge)),
    }
}

/// Advances a task that awaits the application's head by one event, at the
/// instant `now` in seconds after the Unix epoch.
///
/// While the application has no head, a reset by the peer ends the task. A
/// failure of the application resets the stream for an internal error. A
/// head gets its `Date` and `Content-Length` and is committed with the
/// body's end-of-stream hint; a head that asks to switch protocols is
/// refused, and so is one whose body ends with it though it declared bytes
/// to come. The instant matters only for a head.
pub fn poll_send_body<E>(event: RespondEvent<E>, now: u64) -> (r: (Step<E>, BackgroundState))
    requires
        event is Ready ==> now < DATE_LIMIT,
    ensures
        responds(event, now, r.0, r.1),
{
    match event {
        RespondEvent::Pending(ResetPoll::Pending) => (Step::Pending, BackgroundState::Responding),
        RespondEvent::Pending(ResetPoll::Reset(reason)) => fail_silent(
            H2Error::new_protocol(ProtocolError::Reset(reason)),
        ),
        RespondEvent::Pending(ResetPoll::Failed(code)) => fail_silent(
            H2Error::new_protocol(ProtocolError::Engine(code)),
        ),
        RespondEvent::Failed(err) => fail_internal(H2Error::new_service(err)),
        RespondEvent::Ready(head) => {
            let ResponseHead { status, headers, content_length, end_of_stream } = head;
            if status == SWITCHING_PROTOCOLS {
                return fail_internal(H2Error::new_protocol(ProtocolError::Upgrade));
            }
            if end_of_stream {
                match content_length {
                    Some(declared) => {
                        if declared != 0 {
                            return fail_internal(H2Error::new_body(BodyError::LengthMismatch));
                        }
                    },
                    None => {},
                }
            }
            let mut headers = headers;
            let completed = synthesize_headers(&mut headers, now, content_length);
            commit_head(status, headers, content_length, end_of_stream, completed)
        },
        _ => fail_internal(H2Error::new_protocol(ProtocolError::Unexpected)),
    }
}

/// Advances a task that has committed its head by one event: whether the
/// protocol engine took the head.
pub fn poll_committed<E>(
    content_length: Option<u64>,
    end_of_stream: bool,
    event: RespondEvent<E>,
) -> (r: (Step<E>, BackgroundState))
    ensures
        r == committed(content_length, end_of_stream, event),
{
    match event {
        RespondEvent::Sent => {
            if end_of_stream {
                (Step::Idle, BackgroundState::Done)
            } else {
                (Step::Continue, BackgroundState::Sending(SendBody::new(content_length)))
            }
        },
        RespondEvent::Refused(code) => fail_internal(
            H2Error::new_protocol(ProtocolError::Engine(code)),
        ),
        _ => fail_internal(H2Error::new_protocol(ProtocolError::Unexpected)),
    }
}

/// What the driver observed for a stream, by the phase it belongs to.
pub enum StreamEvent<E> {
    Respond(RespondEvent<E>),
    Send(SendEvent<E>),
}

/// Whether the event is a response head, for which the instant must have
/// an IMF-fixdate.
pub open spec fn needs_date<E>(event: StreamEvent<E>) -> bool {
    event matches StreamEvent::Respond(RespondEvent::Ready(_))
}

/// The task that answers one stream.
#[derive(Clone, Copy, Debug)]
pub struct Background {
    pub state: BackgroundState,
}

impl Background {
    /// Whether the task may answer `event` at the instant `now` with `step`
    /// and go on as `next`. A finished task answers `Idle`; an event of the
    /// other phase resets the stream.
    pub open spec fn allows<E>(
        self,
        event: StreamEvent<E>,
        now: u64,
        step: Step<E>,
        next: Background,
    ) -> bool {
        match (self.state, event) {
            (BackgroundState::Done, _) => step == Step::<E>::Idle && next == self,
            (BackgroundState::Responding, StreamEvent::Respond(ev)) => responds(
                ev,
                now,
                step,
                next.state,
            ),
            (
                BackgroundState::Committing { content_length, end_of_stream },
                StreamEvent::Respond(ev),
            ) => (step, next.state) == committed(content_length, end_of_stream, ev),
            (BackgroundState::Sending(send), StreamEvent::Send(ev)) => step == send.step(ev)
                && next.state == if send.next(ev).closed {
                BackgroundState::Done
            } else {
                BackgroundState::Sending(send.next(ev))
            },
            _ => step == unexpected::<E>() && next.state == BackgroundState::Done,
        }
    }

    /// The task for a stream that was just accepted.
    pub fn new() -> (b: Background)
        ensures
            b.state == BackgroundState::Responding,
    {
        Background { state: BackgroundState::Responding }
    }

    /// Whether the task has finished.
    pub fn is_done(&self) -> (b: bool)
        ensures
            b == (self.state is Done),
    {
        match self.state {
            BackgroundState::Done => true,
            _ => false,
        }
    }

    /// Advances the task by one event, at the instant `now` in seconds after
    /// the Unix epoch.
    pub fn poll<E>(&mut self, event: StreamEvent<E>, now: u64) -> (step: Step<E>)
        requires
            needs_date(event) ==> now < DATE_LIMIT,
        ensures
            old(self).allows(event, now, step, *final(self)),
    {
        let (step, next) = match (self.state, event) {
            (BackgroundState::Done, _) => (Step::Idle, BackgroundState::Done),
            (BackgroundState::Responding, StreamEvent::Respond(ev)) => poll_send_body(ev, now),
            (
                BackgroundState::Committing { content_length, end_of_stream },
                StreamEvent::Respond(ev),
            ) => poll_committed(content_length, end_of_stream, ev),
            (BackgroundState::Sending(mut send), StreamEvent::Send(ev)) => {
                let step = send.poll_send(ev);
                if send.is_closed() {
                    (step, BackgroundState::Done)
                } else {
                    (step, BackgroundState::Sending(send))
                }
            },
            _ => fail_internal(H2Error::new_protocol(ProtocolError::Unexpected)),
        };
        self.state = next;
        step
    }
}

/// A response head is committed at most once: a task that is past its head
/// never returns to awaiting one and never commits another, and the step
/// that commits a head puts the task past it.
pub proof fn lemma_head_committed_once<E>(
    task: Background,
    event: StreamEvent<E>,
    now: u64,
    step: Step<E>,
    next: Background,
)
    requires
        task.allows(event, now, step, next),
    ensures
        step is SendResponse ==> !task.state.past_head() && next.state.past_head(),
        task.state.past_head() ==> next.state.past_head() && !(step is SendResponse),
{
}

/// Once a step has carried end-of-stream the task emits nothing more: it
/// is no longer open, a task that is not open never opens again, and what
/// it answers puts no frame on the wire. A failure ends the task at once.
pub proof fn lemma_end_of_stream_is_final<E>(
    task: Background,
    event: StreamEvent<E>,
    now: u64,
    step: Step<E>,
    next: Background,
)
    requires
        task.allows(event, now, step, next),
    ensures
        step.ends_stream() ==> !next.state.open(),
        step is Fail ==> next.state is Done,
        !task.state.open() ==> !next.state.open() && !step.emits(),
{
}

/// One turn of a task: the event handed in, the instant, the step that came
/// back and the task after it.
pub struct Turn<E> {
    pub event: StreamEvent<E>,
    pub now: u64,
    pub step: Step<E>,
    pub next: Background,
}

/// The task before the turn at `at`.
pub open spec fn task_before<E>(start: Background, turns: Seq<Turn<E>>, at: int) -> Background {
    if at == 0 {
        start
    } else {
        turns[at - 1].next
    }
}

/// Whether the turns are a run of one task that began as `start`: each
/// turn is one that the task before it allows.
pub open spec fn is_run<E>(start: Background, turns: Seq<Turn<E>>) -> bool {
    forall|at: int|
        0 <= at < turns.len() ==> task_before(start, turns, at).allows(
            (#[trigger] turns[at]).event,
            turns[at].now,
            turns[at].step,
            turns[at].next,
        )
}

/// From the turn that commits the head on, the task is past its head.
proof fn lemma_stays_past_head<E>(start: Background, turns: Seq<Turn<E>>, first: int, at: int)
    requires
        is_run(start, turns),
        0 <= first <= at < turns.len(),
        turns[first].step is SendResponse,
    ensures
        turns[at].next.state.past_head(),
    decreases at - first,
{
    assert(task_before(start, turns, at).allows(
        turns[at].event,
        turns[at].now,
        turns[at].step,
        turns[at].next,
    ));
    if at > first {
        lemma_stays_past_head(start, turns, first, at - 1);
    }
}

/// From the turn that carries end-of-stream on, the task is not open.
proof fn lemma_stays_ended<E>(start: Background, turns: Seq<Turn<E>>, last: int, at: int)
    requires
        is_run(start, turns),
        0 <= last <= at < turns.len(),
        turns[last].step.ends_stream(),
    ensures
        !turns[at].next.state.open(),
    decreases at - last,
{
    assert(task_before(start, turns, at).allows(
        turns[at].event,
        turns[at].now,
        turns[at].step,
        turns[at].next,
    ));
    if at > last {
        lemma_stays_ended(start, turns, last, at - 1);
    }
}

/// In any run of a task, the head is committed at most once.
pub proof fn lemma_one_head_per_run<E>(
    start: Background,
    turns: Seq<Turn<E>>,
    first: int,
    second: int,
)
    requires
        is_run(start, turns),
        0 <= first < second < turns.len(),
        turns[first].step is SendResponse,
    ensures
        !(turns[second].step is SendResponse),
{
    lemma_stays_past_head(start, turns, first, second - 1);
    assert(task_before(start, turns, second).allows(
        turns[second].event,
        turns[second].now,
        turns[second].step,
        turns[second].next,
    ));
}

/// In any run of a task, no frame of the response follows a step that
/// carried end-of-stream.
pub proof fn lemma_no_frame_after_end_of_stream<E>(
    start: Background,
    turns: Seq<Turn<E>>,
    last: int,
    later: int,
)
    requires
        is_run(start, turns),
        0 <= last < later < turns.len(),
        turns[last].step.ends_stream(),
    ensures
        !turns[later].step.emits(),
{
    lemma_stays_ended(start, turns, last, later - 1);
    assert(task_before(start, turns, later).allows(
        turns[later].event,
        turns[later].now,
        turns[later].step,
        turns[later].next,
    ));
}

/// The bytes that a step hands to the protocol engine as DATA.
pub open spec fn payload<E>(step: Step<E>) -> Seq<u8> {
    match step {
        Step::SendData { buf, .. } => buf@,
        _ => Seq::empty(),
    }
}

/// The bytes that an event brings from the body.
pub open spec fn offered<E>(event: SendEvent<E>) -> Seq<u8> {
    match event {
        SendEvent::Data(data, _) => data@,
        _ => Seq::empty(),
    }
}

/// The task after the events, handed in one after the other.
pub open spec fn after_events<E>(send: SendBody, events: Seq<SendEvent<E>>) -> SendBody
    decreases events.len(),
{
    if events.len() == 0 {
        send
    } else {
        after_events(send, events.drop_last()).next(events.last())
    }
}

/// The step that answers the event at `at` of a run.
pub open spec fn step_at<E>(send: SendBody, events: Seq<SendEvent<E>>, at: int) -> Step<E> {
    after_events(send, events.take(at)).step(events[at])
}

/// What the steps of a run hand to the protocol engine as DATA, step by
/// step.
pub open spec fn payloads<E>(send: SendBody, events: Seq<SendEvent<E>>) -> Seq<Seq<u8>> {
    Seq::new(events.len(), |at: int| payload(step_at(send, events, at)))
}

/// What the events of a run bring from the body, event by event.
pub open spec fn chunks_of<E>(events: Seq<SendEvent<E>>) -> Seq<Seq<u8>> {
    Seq::new(events.len(), |at: int| offered(events[at]))
}

/// As long as a task neither fails nor has finished, what it hands to the
/// protocol engine is what the body yielded: chunk by chunk the same
/// bytes in the same order, so that the payloads laid end to end are the
/// chunks laid end to end.
pub proof fn lemma_payloads_are_the_chunks<E>(send: SendBody, events: Seq<SendEvent<E>>)
    requires
        forall|at: int|
            0 <= at < events.len() ==> !(#[trigger] step_at(send, events, at) is Fail) && !(
            step_at(send, events, at) is Idle),
    ensures
        payloads(send, events) == chunks_of(events),
        join(payloads(send, events)) == join(chunks_of(events)),
{
    assert forall|at: int| 0 <= at < events.len() implies payload(step_at(send, events, at))
        == offered(events[at]) by {
        assert(!(step_at(send, events, at) is Fail));
    }
    assert(payloads(send, events) =~= chunks_of(events));
}

/// The number of bytes in the chunks.
pub open spec fn total_len(chunks: Seq<Data>) -> nat
    decreases chunks.len(),
{
    if chunks.len() == 0 {
        0
    } else {
        total_len(chunks.drop_last()) + chunks.last()@.len()
    }
}

/// The task after the body has yielded the chunks, none of them with the
/// end-of-stream hint.
pub open spec fn streamed<E>(send: SendBody, chunks: Seq<Data>) -> SendBody
    decreases chunks.len(),
{
    if chunks.len() == 0 {
        send
    } else {
        streamed::<E>(send, chunks.drop_last()).next(SendEvent::<E>::Data(chunks.last(), false))
    }
}

/// The task of a body that declared `declared` bytes, after the chunks.
pub open spec fn declared_after<E>(declared: u64, chunks: Seq<Data>) -> SendBody {
    streamed::<E>(SendBody { end_of_data: false, owed: Some(declared), closed: false }, chunks)
}

/// While a body keeps within the length it declared, the task owes the
/// declared length less the bytes it has sent.
pub proof fn lemma_owed_is_declared_less_sent<E>(declared: u64, chunks: Seq<Data>)
    requires
        total_len(chunks) <= declared,
    ensures
        declared_after::<E>(declared, chunks) == (SendBody {
            end_of_data: false,
            owed: Some((declared - total_len(chunks)) as u64),
            closed: false,
        }),
    decreases chunks.len(),
{
    if chunks.len() > 0 {
        lemma_owed_is_declared_less_sent::<E>(declared, chunks.drop_last());
    }
}

/// A body that declared its length and yields more bytes, or ends with
/// fewer, fails with a body error and the stream is reset for an internal
/// error; a body that keeps to its length is sent as it comes and ends
/// with the sentinel.
pub proof fn lemma_length_mismatch_resets<E>(
    declared: u64,
    chunks: Seq<Data>,
    chunk: Data,
    end_of_stream: bool,
)
    requires
        total_len(chunks) <= declared,
    ensures
        total_len(chunks) + chunk@.len() > declared ==> declared_after::<E>(declared, chunks).step(
            SendEvent::<E>::Data(chunk, end_of_stream),
        ) == Step::<E>::internal(body(BodyError::LengthMismatch)),
        total_len(chunks) + chunk@.len() < declared && end_of_stream ==> declared_after::<E>(
            declared,
            chunks,
        ).step(SendEvent::<E>::Data(chunk, end_of_stream)) == Step::<E>::internal(
            body(BodyError::LengthMismatch),
        ),
        total_len(chunks) < declared ==> declared_after::<E>(declared, chunks).step(
            SendEvent::<E>::End(end_of_stream),
        ) == Step::<E>::internal(body(BodyError::LengthMismatch)),
        total_len(chunks) + chunk@.len() <= declared && (end_of_stream ==> total_len(chunks)
            + chunk@.len() == declared) ==> declared_after::<E>(declared, chunks).step(
            SendEvent::<E>::Data(chunk, end_of_stream),
        ) == (Step::<E>::SendData { buf: SendBuf::Data(chunk), end_of_stream }),
        total_len(chunks) == declared ==> declared_after::<E>(declared, chunks).step(
            SendEvent::<E>::End(end_of_stream),
        ) == (Step::<E>::SendData { buf: SendBuf::Eos, end_of_stream }),
{
    lemma_owed_is_declared_less_sent::<E>(declared, chunks);
}

} // verus!
