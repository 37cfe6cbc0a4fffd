//! The connection: a foreground that drives the handshake, the service's
//! readiness and the arrival of streams, and a registry of the tasks that
//! answer the streams in flight.
//!
//! Like the stream tasks, the connection does no I/O: the driver polls what
//! the connection wants, hands the outcome in, and carries out the step that
//! comes back.

use vstd::prelude::*;
use crate::error::{H2Error, ProtocolError};
use crate::head::DATE_LIMIT;
use crate::stream::{
    needs_date, protocol, service, Background, BackgroundState, Step, StreamEvent,
};

verus! {

/// `h2::server::Builder`, the settings of the protocol engine, carried as
/// they are.
#[verifier::external_type_specification]
#[verifier::external_body]
pub struct ExBuilder(h2::server::Builder);

/// `h2::server::Builder::new`: a builder with the engine's default settings.
#[verifier::external_body]
fn builder_new() -> (b: h2::server::Builder) {
    h2::server::Builder::new()
}

/// How far the protocol engine of a draining connection is.
#[derive(Clone, Copy, Debug)]
pub enum Engine {
    /// It still shakes hands: the shutdown came before it ran.
    Handshake,
    /// It runs, and was told, or is to be told, to shut down gracefully.
    Running,
    /// It has flushed and closed.
    Closed,
}

/// Where the foreground of a connection stands.
#[derive(Clone, Copy, Debug)]
pub enum State {
    /// The protocol handshake is under way.
    Handshake,
    /// Streams are accepted. `probed` says whether the service was found
    /// ready since the last stream or wake-up.
    Running { probed: bool },
    /// No stream is accepted any more. `engine` says how far the protocol
    /// engine is.
    Draining { engine: Engine },
    /// The connection is over.
    Closed,
}

/// What the driver is to poll for the foreground.
#[derive(Clone, Copy, Debug)]
pub enum Want {
    /// The protocol handshake.
    Handshake,
    /// The service's readiness probe.
    Ready,
    /// The protocol engine, for the next stream.
    Accept,
    /// The protocol engine, for its close.
    Close,
    /// Nothing: only the stream tasks are left, or nothing at all.
    Nothing,
}

/// What polling the handshake gave.
pub enum HandshakePoll {
    Pending,
    Done,
    Failed(Option<u32>),
}

/// What the service's readiness probe gave.
pub enum ReadyPoll<E> {
    Ready,
    NotReady,
    Failed(E),
}

/// What polling the protocol engine for the next stream gave.
pub enum AcceptPoll {
    Pending,
    /// A stream arrived, with its identifier.
    Stream(u32),
    /// No more streams will arrive.
    Finished,
    Failed(Option<u32>),
}

/// What polling the protocol engine for its close gave.
pub enum ClosePoll {
    Pending,
    Closed,
    Failed(Option<u32>),
}

/// What the driver observed for the foreground.
pub enum ForegroundEvent<E> {
    Handshake(HandshakePoll),
    Ready(ReadyPoll<E>),
    Accept(AcceptPoll),
    Close(ClosePoll),
}

/// What the driver must do next for the foreground.
pub enum Foreground<E> {
    /// Poll what is named and hand the outcome in at once.
    Continue(Want),
    /// Hand the stream with this identifier to the service and start
    /// driving its task; then go on with the foreground.
    Dispatch(u32),
    /// Tell the protocol engine to shut down gracefully, which emits GOAWAY;
    /// then go on with the foreground.
    GoAway,
    /// Wait for the next wake-up.
    Pending,
    /// The foreground is over.
    Ready,
    /// The connection failed and is over.
    Fail(H2Error<E>),
}

/// A stream in flight: its identifier and the task that answers it.
#[derive(Clone, Copy, Debug)]
pub struct Enrolled {
    pub id: u32,
    pub task: Background,
}

/// Whether a task is enrolled under `id`.
pub open spec fn has_stream(tasks: Seq<Enrolled>, id: u32) -> bool {
    exists|i: int| 0 <= i < tasks.len() && #[trigger] tasks[i].id == id
}

/// The place of the task enrolled under `id`.
pub open spec fn index_of(tasks: Seq<Enrolled>, id: u32) -> int {
    choose|i: int| 0 <= i < tasks.len() && #[trigger] tasks[i].id == id
}

/// The task enrolled under `id`, if there is one.
pub open spec fn task_of(tasks: Seq<Enrolled>, id: u32) -> Option<Background> {
    if has_stream(tasks, id) {
        Some(tasks[index_of(tasks, id)].task)
    } else {
        None
    }
}

/// The state in which a foreground that is over leaves the connection:
/// closed once no task is left, draining until then.
pub open spec fn settled(tasks: Seq<Enrolled>) -> State {
    if tasks.len() == 0 {
        State::Closed
    } else {
        State::Draining { engine: Engine::Closed }
    }
}

/// A builder of connections.
pub struct H2 {
    pub protocol: h2::server::Builder,
}

/// A connection that serves HTTP/2.
pub struct H2Connection {
    state: State,
    backgrounds: Vec<Enrolled>,
}

/// What a connection is made of: where its foreground stands, and the
/// registry of the streams in flight, in the order they arrived.
pub struct Connection {
    pub state: State,
    pub tasks: Seq<Enrolled>,
}

impl View for H2Connection {
    type V = Connection;

    closed spec fn view(&self) -> Connection {
        Connection { state: self.state, tasks: self.backgrounds@ }
    }
}

impl H2 {
    /// A builder with the protocol engine's default settings.
    pub fn new() -> (h: Self) {
        H2 { protocol: builder_new() }
    }

    /// The protocol-level configuration, to be changed in place.
    pub fn protocol(&mut self) -> (p: &mut h2::server::Builder)
        ensures
            *p == old(self).protocol,
            final(self).protocol == *final(p),
    {
        &mut self.protocol
    }

    /// A connection at the start of its handshake, with no stream in flight.
    pub fn serve(&self) -> (conn: H2Connection)
        ensures
            conn@.state is Handshake,
            conn@.tasks.len() == 0,
            conn@.wf(),
    {
        H2Connection { state: State::Handshake, backgrounds: Vec::new() }
    }
}

impl Default for H2 {
    fn default() -> (h: Self) {
        H2::new()
    }
}

impl Connection {
    /// The registry holds each stream once and no finished task, and a
    /// closed connection holds none.
    pub open spec fn wf(self) -> bool {
        &&& forall|i: int, j: int|
            0 <= i < j < self.tasks.len() ==> self.tasks[i].id != self.tasks[j].id
        &&& forall|i: int|
            0 <= i < self.tasks.len() ==> !(#[trigger] self.tasks[i].task.state is Done)
        &&& self.state is Closed ==> self.tasks.len() == 0
    }

    /// What the driver is to poll next for the foreground. The service's
    /// readiness comes before the protocol engine.
    pub open spec fn want(self) -> Want {
        match self.state {
            State::Handshake => Want::Handshake,
            State::Running { probed: false } => Want::Ready,
            State::Running { probed: true } => Want::Accept,
            State::Draining { engine: Engine::Handshake } => Want::Handshake,
            State::Draining { engine: Engine::Running } => Want::Close,
            _ => Want::Nothing,
        }
    }

    /// The connection after a graceful shutdown: it drains, with its
    /// engine where it was and its streams as they were. A connection that
    /// drains or is closed already stays as it is.
    pub open spec fn shut_down(self) -> Connection {
        Connection {
            state: match self.state {
                State::Handshake => State::Draining { engine: Engine::Handshake },
                State::Running { .. } => State::Draining { engine: Engine::Running },
                other => other,
            },
            tasks: self.tasks,
        }
    }

    /// The step that answers `event`. An event that the state does not want
    /// changes nothing and is answered with what the state wants. The
    /// service's readiness is taken whenever the connection runs. A
    /// draining connection whose handshake ends tells the driver to emit
    /// GOAWAY.
    pub open spec fn step<E>(self, event: ForegroundEvent<E>) -> Foreground<E> {
        match (self.state, event) {
            (State::Closed, _) => Foreground::Ready,
            (State::Draining { engine: Engine::Closed }, _) => Foreground::Ready,
            (State::Handshake, ForegroundEvent::Handshake(poll)) => match poll {
                HandshakePoll::Pending => Foreground::Pending,
                HandshakePoll::Done => Foreground::Continue(Want::Ready),
                HandshakePoll::Failed(code) => Foreground::Fail(
                    protocol(ProtocolError::Engine(code)),
                ),
            },
            (State::Draining { engine: Engine::Handshake }, ForegroundEvent::Handshake(poll)) =>
                match poll {
                HandshakePoll::Pending => Foreground::Pending,
                HandshakePoll::Done => Foreground::GoAway,
                HandshakePoll::Failed(code) => Foreground::Fail(
                    protocol(ProtocolError::Engine(code)),
                ),
            },
            (State::Running { .. }, ForegroundEvent::Ready(poll)) => match poll {
                ReadyPoll::Ready => Foreground::Continue(Want::Accept),
                ReadyPoll::NotReady => Foreground::GoAway,
                ReadyPoll::Failed(err) => Foreground::Fail(service(err)),
            },
            (State::Running { probed: true }, ForegroundEvent::Accept(poll)) => match poll {
                AcceptPoll::Pending => Foreground::Pending,
                AcceptPoll::Stream(id) => if has_stream(self.tasks, id) {
                    Foreground::Fail(protocol(ProtocolError::Unexpected))
                } else {
                    Foreground::Dispatch(id)
                },
                AcceptPoll::Finished => Foreground::Ready,
                AcceptPoll::Failed(code) => Foreground::Fail(
                    protocol(ProtocolError::Engine(code)),
                ),
            },
            (State::Draining { engine: Engine::Running }, ForegroundEvent::Close(poll)) => match poll {
                ClosePoll::Pending => Foreground::Pending,
                ClosePoll::Closed => Foreground::Ready,
                ClosePoll::Failed(code) => Foreground::Fail(protocol(ProtocolError::Engine(code))),
            },
            _ => Foreground::Continue(self.want()),
        }
    }

    /// The state after `event`, while the foreground goes on. Whether the
    /// state belongs to the event is for `step` to say.
    pub open spec fn running_state<E>(self, event: ForegroundEvent<E>) -> State {
        match self.step(event) {
            Foreground::Continue(Want::Ready) => if self.state is Handshake {
                State::Running { probed: false }
            } else {
                self.state
            },
            Foreground::Continue(Want::Accept) => if self.state is Running {
                State::Running { probed: true }
            } else {
                self.state
            },
            Foreground::Dispatch(_) => State::Running { probed: false },
            Foreground::GoAway => State::Draining { engine: Engine::Running },
            Foreground::Pending => if self.state is Running {
                State::Running { probed: false }
            } else {
                self.state
            },
            _ => self.state,
        }
    }

    /// The registry after `event`: a failure of the connection cancels
    /// every task, a dispatched stream is enrolled, anything else leaves
    /// the registry as it is.
    pub open spec fn tasks_after<E>(self, event: ForegroundEvent<E>) -> Seq<Enrolled> {
        match self.step(event) {
            Foreground::Fail(_) => Seq::empty(),
            Foreground::Dispatch(id) => self.tasks.push(
                Enrolled { id, task: Background { state: BackgroundState::Responding } },
            ),
            _ => self.tasks,
        }
    }

    /// The state after `event`: a failure closes the connection, and a
    /// foreground that is over closes it once no task is left.
    pub open spec fn state_after<E>(self, event: ForegroundEvent<E>) -> State {
        match self.step(event) {
            Foreground::Fail(_) => State::Closed,
            Foreground::Ready => settled(self.tasks),
            _ => self.running_state(event),
        }
    }

    /// Whether the connection may answer `event` for the stream `id` at the
    /// instant `now` with `step` and go on as `next`.
    ///
    /// An event for a stream that is not in flight is answered with `Idle`.
    /// Otherwise the stream's task answers; it stays enrolled in its new
    /// state, or leaves the registry when it is done. The foreground is not
    /// touched, but that a drained connection closes with its last task.
    pub open spec fn drives<E>(
        self,
        id: u32,
        event: StreamEvent<E>,
        now: u64,
        step: Step<E>,
        next: Connection,
    ) -> bool {
        let tasks = self.tasks;
        let i = index_of(tasks, id);
        if !has_stream(tasks, id) {
            step == Step::<E>::Idle && next.state == self.state && next.tasks == tasks
        } else {
            &&& next.state == match self.state {
                State::Draining { engine: Engine::Closed } => settled(next.tasks),
                _ => self.state,
            }
            &&& {
                ||| {
                    &&& tasks[i].task.allows(
                        event,
                        now,
                        step,
                        Background { state: BackgroundState::Done },
                    )
                    &&& next.tasks == tasks.remove(i)
                }
                ||| {
                    &&& next.tasks.len() == tasks.len()
                    &&& !(next.tasks[i].task.state is Done)
                    &&& tasks[i].task.allows(event, now, step, next.tasks[i].task)
                    &&& next.tasks == tasks.update(
                        i,
                        Enrolled { id, task: next.tasks[i].task },
                    )
                }
            }
        }
    }
}

impl H2Connection {
    /// Every connection has its registry in order.
    #[verifier::type_invariant]
    spec fn registry_in_order(self) -> bool {
        self@.wf()
    }

    /// What the driver is to poll next for the foreground.
    pub fn want(&self) -> (w: Want)
        ensures
            w == self@.want(),
    {
        match self.state {
            State::Handshake => Want::Handshake,
            State::Running { probed } => if probed {
                Want::Accept
            } else {
                Want::Ready
            },
            State::Draining { engine } => match engine {
                Engine::Handshake => Want::Handshake,
                Engine::Running => Want::Close,
                Engine::Closed => Want::Nothing,
            },
            State::Closed => Want::Nothing,
        }
    }

    /// Where the foreground stands.
    pub fn state(&self) -> (s: State)
        ensures
            s == self@.state,
    {
        self.state
    }

    /// Whether the connection is over.
    pub fn is_closed(&self) -> (b: bool)
        ensures
            b == (self@.state is Closed),
    {
        match self.state {
            State::Closed => true,
            _ => false,
        }
    }

    /// The number of streams in flight.
    pub fn in_flight(&self) -> (n: usize)
        ensures
            n == self@.tasks.len(),
    {
        self.backgrounds.len()
    }

    /// The task of the stream `id`, if the stream is in flight.
    pub fn stream(&self, id: u32) -> (task: Option<Background>)
        ensures
            self@.wf(),
            task == task_of(self@.tasks, id),
    {
        proof {
            use_type_invariant(self);
        }
        match self.find(id) {
            Some(i) => Some(self.backgrounds[i].task),
            None => None,
        }
    }

    /// Hands the registry out and leaves none. A registry is changed
    /// aside and put back whole, so that the connection is in order at
    /// every point.
    fn take_tasks(&mut self) -> (tasks: Vec<Enrolled>)
        ensures
            tasks@ == old(self)@.tasks,
            final(self)@.tasks.len() == 0,
            final(self)@.state == old(self)@.state,
    {
        let mut tasks: Vec<Enrolled> = Vec::new();
        std::mem::swap(&mut self.backgrounds, &mut tasks);
        tasks
    }

    /// Puts a registry in the place of the one that the connection holds.
    fn put_tasks(&mut self, tasks: Vec<Enrolled>)
        requires
            (Connection { state: old(self)@.state, tasks: tasks@ }).wf(),
        ensures
            final(self)@.tasks == tasks@,
            final(self)@.state == old(self)@.state,
    {
        let mut tasks = tasks;
        std::mem::swap(&mut self.backgrounds, &mut tasks);
    }

    /// Where the task enrolled under `id` stands in the registry.
    fn find(&self, id: u32) -> (at: Option<usize>)
        ensures
            at is Some <==> has_stream(self@.tasks, id),
            at matches Some(i) ==> i < self@.tasks.len() && self@.tasks[i as int].id == id,
    {
        let mut i: usize = 0;
        while i < self.backgrounds.len()
            invariant
                i <= self.backgrounds@.len(),
                forall|k: int| 0 <= k < i ==> self.backgrounds@[k].id != id,
            decreases self.backgrounds@.len() - i,
        {
            if self.backgrounds[i].id == id {
                return Some(i);
            }
            i += 1;
        }
        None
    }

    /// Advances the foreground by one event, as long as it goes on: the
    /// steps that end it leave state and registry for the caller to settle.
    fn poll_foreground2<E>(&mut self, event: ForegroundEvent<E>) -> (step: Foreground<E>)
        ensures
            old(self)@.wf(),
            step == old(self)@.step(event),
            final(self)@.state == old(self)@.running_state(event),
            final(self)@.tasks == if step is Dispatch {
                old(self)@.tasks_after(event)
            } else {
                old(self)@.tasks
            },
    {
        proof {
            use_type_invariant(&*self);
        }
        match (self.state, event) {
            (State::Closed, _) => Foreground::Ready,
            (State::Draining { engine: Engine::Closed }, _) => Foreground::Ready,
            (State::Handshake, ForegroundEvent::Handshake(poll)) => match poll {
                HandshakePoll::Pending => Foreground::Pending,
                HandshakePoll::Done => {
                    self.state = State::Running { probed: false };
                    Foreground::Continue(Want::Ready)
                },
                HandshakePoll::Failed(code) => Foreground::Fail(
                    H2Error::new_protocol(ProtocolError::Engine(code)),
                ),
            },
            (State::Draining { engine: Engine::Handshake }, ForegroundEvent::Handshake(poll)) =>
                match poll {
                HandshakePoll::Pending => Foreground::Pending,
                HandshakePoll::Done => {
                    self.state = State::Draining { engine: Engine::Running };
                    Foreground::GoAway
                },
                HandshakePoll::Failed(code) => Foreground::Fail(
                    H2Error::new_protocol(ProtocolError::Engine(code)),
                ),
            },
            (State::Running { .. }, ForegroundEvent::Ready(poll)) => match poll {
                ReadyPoll::Ready => {
                    self.state = State::Running { probed: true };
                    Foreground::Continue(Want::Accept)
                },
                ReadyPoll::NotReady => {
                    self.state = State::Draining { engine: Engine::Running };
                    Foreground::GoAway
                },
                ReadyPoll::Failed(err) => Foreground::Fail(H2Error::new_service(err)),
            },
            (State::Running { probed: true }, ForegroundEvent::Accept(poll)) => match poll {
                AcceptPoll::Pending => {
                    self.state = State::Running { probed: false };
                    Foreground::Pending
                },
                AcceptPoll::Stream(id) => {
                    if self.find(id).is_some() {
                        Foreground::Fail(H2Error::new_protocol(ProtocolError::Unexpected))
                    } else {
                        let mut tasks = self.take_tasks();
                        tasks.push(Enrolled { id, task: Background::new() });
                        self.put_tasks(tasks);
                        self.state = State::Running { probed: false };
                        Foreground::Dispatch(id)
                    }
                },
                AcceptPoll::Finished => Foreground::Ready,
                AcceptPoll::Failed(code) => Foreground::Fail(
                    H2Error::new_protocol(ProtocolError::Engine(code)),
                ),
            },
            (State::Draining { engine: Engine::Running }, ForegroundEvent::Close(poll)) => match poll {
                ClosePoll::Pending => Foreground::Pending,
                ClosePoll::Closed => Foreground::Ready,
                ClosePoll::Failed(code) => Foreground::Fail(
                    H2Error::new_protocol(ProtocolError::Engine(code)),
                ),
            },
            _ => Foreground::Continue(self.want()),
        }
    }

    /// Advances the foreground by one event. When the foreground is over
    /// the connection drains, or closes if no task is left; when it fails
    /// the connection closes and every task is cancelled.
    pub fn poll_foreground<E>(&mut self, event: ForegroundEvent<E>) -> (step: Foreground<E>)
        ensures
            old(self)@.wf(),
            final(self)@.wf(),
            step == old(self)@.step(event),
            final(self)@.state == old(self)@.state_after(event),
            final(self)@.tasks == old(self)@.tasks_after(event),
    {
        let step = self.poll_foreground2(event);
        match step {
            Foreground::Ready => {
                self.state = if self.backgrounds.len() == 0 {
                    State::Closed
                } else {
                    State::Draining { engine: Engine::Closed }
                };
            },
            Foreground::Fail(_) => {
                let _ = self.take_tasks();
                self.state = State::Closed;
            },
            _ => {},
        }
        step
    }

    /// Advances the connection by one foreground event and says whether it
    /// is over: a foreground that is over still leaves the connection
    /// pending while a task is in flight.
    pub fn poll_close<E>(&mut self, event: ForegroundEvent<E>) -> (step: Foreground<E>)
        ensures
            old(self)@.wf(),
            final(self)@.wf(),
            final(self)@.state == old(self)@.state_after(event),
            final(self)@.tasks == old(self)@.tasks_after(event),
            step == if old(self)@.step(event) is Ready && old(self)@.tasks.len() > 0 {
                Foreground::Pending
            } else {
                old(self)@.step(event)
            },
            step is Ready <==> final(self)@.state is Closed && !(old(self)@.step(event) is Fail),
    {
        let step = self.poll_foreground(event);
        match step {
            Foreground::Ready => if self.backgrounds.len() > 0 {
                Foreground::Pending
            } else {
                Foreground::Ready
            },
            _ => step,
        }
    }

    /// Stops accepting streams: the connection drains from now on. Returns
    /// whether the driver must tell the protocol engine at once to shut
    /// down gracefully: it must when the connection was running. A
    /// connection that still shakes hands tells the driver so when the
    /// handshake is done. The streams in flight stay as they are.
    pub fn graceful_shutdown(&mut self) -> (go_away: bool)
        ensures
            old(self)@.wf(),
            final(self)@.wf(),
            go_away == (old(self)@.state is Running),
            final(self)@ == old(self)@.shut_down(),
    {
        proof {
            use_type_invariant(&*self);
        }
        match self.state {
            State::Handshake => {
                self.state = State::Draining { engine: Engine::Handshake };
                false
            },
            State::Running { .. } => {
                self.state = State::Draining { engine: Engine::Running };
                true
            },
            _ => false,
        }
    }

    /// Advances the task of the stream `id` by one event, at the instant
    /// `now` in seconds after the Unix epoch. A task that finishes or fails
    /// leaves the registry; its failure is in the step and goes no further.
    pub fn poll_background<E>(&mut self, id: u32, event: StreamEvent<E>, now: u64) -> (step: Step<
        E,
    >)
        requires
            needs_date(event) ==> now < DATE_LIMIT,
        ensures
            old(self)@.wf(),
            final(self)@.wf(),
            old(self)@.drives(id, event, now, step, final(self)@),
    {
        proof {
            use_type_invariant(&*self);
        }
        let at = self.find(id);
        match at {
            None => Step::Idle,
            Some(i) => {
                let mut task = self.backgrounds[i].task;
                let step = task.poll(event, now);
                let mut tasks = self.take_tasks();
                if task.is_done() {
                    tasks.remove(i);
                } else {
                    tasks.set(i, Enrolled { id, task });
                }
                self.put_tasks(tasks);
                match self.state {
                    State::Draining { engine: Engine::Closed } => {
                        if self.backgrounds.len() == 0 {
                            self.state = State::Closed;
                        }
                    },
                    _ => {},
                }
                step
            },
        }
    }
}

/// What happens on one stream leaves every other stream as it was, and
/// leaves the foreground as it was, but that a drained connection closes
/// with its last task.
pub proof fn lemma_streams_are_isolated<E>(
    conn: Connection,
    id: u32,
    event: StreamEvent<E>,
    now: u64,
    step: Step<E>,
    next: Connection,
    other: u32,
)
    requires
        conn.wf(),
        conn.drives(id, event, now, step, next),
        other != id,
    ensures
        task_of(next.tasks, other) == task_of(conn.tasks, other),
        next.state == conn.state || (conn.state == (State::Draining { engine: Engine::Closed })
            && next.state is Closed),
{
    let tasks = conn.tasks;
    let after = next.tasks;
    if has_stream(tasks, id) && has_stream(tasks, other) {
        let i = index_of(tasks, id);
        let j = index_of(tasks, other);
        let moved = if after.len() == tasks.len() || j < i {
            j
        } else {
            j - 1
        };
        assert(after[moved].id == other);
    }
}

/// A connection that drains or is closed accepts no stream, enrolls none,
/// and never runs again.
pub proof fn lemma_draining_accepts_nothing<E>(conn: Connection, event: ForegroundEvent<E>)
    requires
        conn.wf(),
        conn.state is Draining || conn.state is Closed,
    ensures
        !(conn.step(event) is Dispatch),
        conn.state_after(event) is Draining || conn.state_after(event) is Closed,
        conn.tasks_after(event) == conn.tasks || conn.tasks_after(event).len() == 0,
        conn.state_after(event) is Closed ==> conn.tasks_after(event).len() == 0,
{
}

/// When the service is not ready the connection tells the driver to emit
/// GOAWAY and drains; the streams in flight stay enrolled.
pub proof fn lemma_unready_service_drains<E>(conn: Connection)
    requires
        conn.wf(),
        conn.state is Running,
    ensures
        conn.step(ForegroundEvent::<E>::Ready(ReadyPoll::NotReady)) == Foreground::<E>::GoAway,
        conn.state_after(ForegroundEvent::<E>::Ready(ReadyPoll::NotReady)) == (State::Draining {
            engine: Engine::Running,
        }),
        conn.tasks_after(ForegroundEvent::<E>::Ready(ReadyPoll::NotReady)) == conn.tasks,
{
}

/// A running connection whose service is ready takes a stream that arrives
/// at once, whatever the streams in flight are doing: the stream is handed
/// to the service and its task is enrolled behind those in flight, which
/// stay as they are.
pub proof fn lemma_stream_is_taken_beside_others<E>(conn: Connection, id: u32, other: u32)
    requires
        conn.wf(),
        conn.state == (State::Running { probed: true }),
        !has_stream(conn.tasks, id),
        has_stream(conn.tasks, other),
    ensures
        conn.step(ForegroundEvent::<E>::Accept(AcceptPoll::Stream(id))) == Foreground::<
            E,
        >::Dispatch(id),
        conn.tasks_after(ForegroundEvent::<E>::Accept(AcceptPoll::Stream(id))) == conn.tasks.push(
            Enrolled { id, task: Background { state: BackgroundState::Responding } },
        ),
        task_of(conn.tasks_after(ForegroundEvent::<E>::Accept(AcceptPoll::Stream(id))), id)
            == Some(Background { state: BackgroundState::Responding }),
        task_of(conn.tasks_after(ForegroundEvent::<E>::Accept(AcceptPoll::Stream(id))), other)
            == task_of(conn.tasks, other),
{
    let event = ForegroundEvent::<E>::Accept(AcceptPoll::Stream(id));
    let after = conn.tasks_after(event);
    let turn = ConnectionTurn::<E>::Foreground {
        probe: event,
        next: Connection { state: conn.state_after(event), tasks: after },
    };
    lemma_turn_keeps_registry(conn, turn);
    assert(after[conn.tasks.len() as int].id == id);
    assert(after[index_of(conn.tasks, other)].id == other);
}

/// One turn of a connection: an event of the foreground, or an event of
/// one stream with the step that answered it, and the connection after it.
pub enum ConnectionTurn<E> {
    Foreground { probe: ForegroundEvent<E>, next: Connection },
    Stream { id: u32, event: StreamEvent<E>, now: u64, step: Step<E>, next: Connection },
}

impl<E> ConnectionTurn<E> {
    /// The connection after the turn.
    pub open spec fn next(self) -> Connection {
        match self {
            ConnectionTurn::Foreground { next, .. } => next,
            ConnectionTurn::Stream { next, .. } => next,
        }
    }

    /// Whether the connection `conn` may take the turn.
    pub open spec fn allowed(self, conn: Connection) -> bool {
        match self {
            ConnectionTurn::Foreground { probe, next } => next.state == conn.state_after(probe)
                && next.tasks == conn.tasks_after(probe),
            ConnectionTurn::Stream { id, event, now, step, next } => conn.drives(
                id,
                event,
                now,
                step,
                next,
            ),
        }
    }

    /// Whether the turn hands a new stream to the service.
    pub open spec fn dispatches(self, conn: Connection) -> bool {
        self matches ConnectionTurn::Foreground { probe, .. } && conn.step(probe) is Dispatch
    }

    /// Whether the turn fails the connection.
    pub open spec fn fails(self, conn: Connection) -> bool {
        self matches ConnectionTurn::Foreground { probe, .. } && conn.step(probe) is Fail
    }

    /// Whether the turn is an event of the stream `id`.
    pub open spec fn touches(self, id: u32) -> bool {
        self matches ConnectionTurn::Stream { id: touched, .. } && touched == id
    }
}

/// The connection before the turn at `at`.
pub open spec fn connection_before<E>(
    start: Connection,
    turns: Seq<ConnectionTurn<E>>,
    at: int,
) -> Connection {
    if at == 0 {
        start
    } else {
        turns[at - 1].next()
    }
}

/// Whether the turns are a run of one connection that began as `start`.
pub open spec fn is_connection_run<E>(start: Connection, turns: Seq<ConnectionTurn<E>>) -> bool {
    forall|at: int|
        0 <= at < turns.len() ==> (#[trigger] turns[at]).allowed(
            connection_before(start, turns, at),
        )
}

/// A turn keeps the registry in order.
pub proof fn lemma_turn_keeps_registry<E>(conn: Connection, turn: ConnectionTurn<E>)
    requires
        conn.wf(),
        turn.allowed(conn),
    ensures
        turn.next().wf(),
{
}

/// Every connection in a run has its registry in order; so a connection
/// that is closed has no task left.
pub proof fn lemma_run_keeps_registry<E>(
    start: Connection,
    turns: Seq<ConnectionTurn<E>>,
    at: int,
)
    requires
        start.wf(),
        is_connection_run(start, turns),
        0 <= at < turns.len(),
    ensures
        connection_before(start, turns, at).wf(),
        turns[at].next().wf(),
        turns[at].next().state is Closed ==> turns[at].next().tasks.len() == 0,
    decreases at,
{
    if at > 0 {
        lemma_run_keeps_registry(start, turns, at - 1);
    }
    lemma_turn_keeps_registry(connection_before(start, turns, at), turns[at]);
}

/// A turn of a connection that drains or is closed hands no stream to the
/// service, enrolls none, and leaves the connection draining or closed.
pub proof fn lemma_drained_turn<E>(conn: Connection, turn: ConnectionTurn<E>, id: u32)
    requires
        conn.wf(),
        turn.allowed(conn),
        conn.state is Draining || conn.state is Closed,
    ensures
        !turn.dispatches(conn),
        turn.next().state is Draining || turn.next().state is Closed,
        has_stream(turn.next().tasks, id) ==> has_stream(conn.tasks, id),
{
}

/// After a graceful shutdown, or once the service was found not ready, a
/// connection takes no new stream: in any run that begins draining, no turn
/// hands a stream to the service, every stream in flight was in flight at
/// the beginning, and the connection stays draining until it is closed.
pub proof fn lemma_draining_run_takes_no_stream<E>(
    start: Connection,
    turns: Seq<ConnectionTurn<E>>,
    at: int,
    id: u32,
)
    requires
        start.wf(),
        is_connection_run(start, turns),
        start.state is Draining || start.state is Closed,
        0 <= at < turns.len(),
    ensures
        !turns[at].dispatches(connection_before(start, turns, at)),
        turns[at].next().state is Draining || turns[at].next().state is Closed,
        has_stream(turns[at].next().tasks, id) ==> has_stream(start.tasks, id),
    decreases at,
{
    if at > 0 {
        lemma_draining_run_takes_no_stream(start, turns, at - 1, id);
        lemma_run_keeps_registry(start, turns, at - 1);
    }
    lemma_drained_turn(connection_before(start, turns, at), turns[at], id);
}

/// A turn that neither is an event of the stream `other` nor fails the
/// connection leaves the task of `other` as it was.
pub proof fn lemma_turn_leaves_others<E>(conn: Connection, turn: ConnectionTurn<E>, other: u32)
    requires
        conn.wf(),
        turn.allowed(conn),
        has_stream(conn.tasks, other),
        !turn.touches(other),
        !turn.fails(conn),
    ensures
        task_of(turn.next().tasks, other) == task_of(conn.tasks, other),
{
    match turn {
        ConnectionTurn::Foreground { probe, next } => {
            if conn.step(probe) is Dispatch {
                let j = index_of(conn.tasks, other);
                assert(next.tasks[j] == conn.tasks[j]);
                lemma_turn_keeps_registry(conn, turn);
            }
        },
        ConnectionTurn::Stream { id, event, now, step, next } => {
            lemma_streams_are_isolated(conn, id, event, now, step, next, other);
        },
    }
}

/// Whatever happens on the other streams of a connection, and whatever
/// errors they end with, a stream is left as it was: in any run without an
/// event of the stream `other` and without a failure of the connection,
/// the task of `other` stays enrolled and unchanged.
pub proof fn lemma_run_leaves_others<E>(
    start: Connection,
    turns: Seq<ConnectionTurn<E>>,
    other: u32,
    at: int,
)
    requires
        start.wf(),
        is_connection_run(start, turns),
        has_stream(start.tasks, other),
        0 <= at < turns.len(),
        forall|k: int|
            0 <= k <= at ==> !(#[trigger] turns[k]).touches(other) && !turns[k].fails(
                connection_before(start, turns, k),
            ),
    ensures
        task_of(turns[at].next().tasks, other) == task_of(start.tasks, other),
    decreases at,
{
    if at > 0 {
        lemma_run_leaves_others(start, turns, other, at - 1);
    }
    lemma_run_keeps_registry(start, turns, at);
    lemma_turn_leaves_others(connection_before(start, turns, at), turns[at], other);
}

/// After a graceful shutdown, whenever it came, the handshake included,
/// a connection takes no new stream: in any run that follows, no turn
/// hands a stream to the service, every stream in flight was in flight at
/// the shutdown, and the connection drains until it is closed.
pub proof fn lemma_shutdown_takes_no_stream<E>(
    conn: Connection,
    turns: Seq<ConnectionTurn<E>>,
    at: int,
    id: u32,
)
    requires
        conn.wf(),
        is_connection_run(conn.shut_down(), turns),
        0 <= at < turns.len(),
    ensures
        conn.shut_down().wf(),
        conn.shut_down().state is Draining || conn.shut_down().state is Closed,
        conn.shut_down().tasks == conn.tasks,
        !turns[at].dispatches(connection_before(conn.shut_down(), turns, at)),
        turns[at].next().state is Draining || turns[at].next().state is Closed,
        has_stream(turns[at].next().tasks, id) ==> has_stream(conn.tasks, id),
{
    lemma_draining_run_takes_no_stream(conn.shut_down(), turns, at, id);
}

/// A connection that was shut down during its handshake tells the driver
/// to emit GOAWAY as soon as the handshake is done, and goes on draining.
pub proof fn lemma_shutdown_in_handshake_goes_away<E>(conn: Connection)
    requires
        conn.wf(),
        conn.state is Handshake,
    ensures
        conn.shut_down().want() == Want::Handshake,
        conn.shut_down().step(ForegroundEvent::<E>::Handshake(HandshakePoll::Done))
            == Foreground::<E>::GoAway,
        conn.shut_down().state_after(ForegroundEvent::<E>::Handshake(HandshakePoll::Done)) == (
        State::Draining { engine: Engine::Running }),
{
}

} // verus!
