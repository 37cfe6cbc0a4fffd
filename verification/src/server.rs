//! The supervisor of a server: its configuration, the choice of protocol
//! for an accepted connection, and the count of connections that it must
//! outlive.

use vstd::prelude::*;
use crate::connection::H2;

verus! {

/// How the tasks of a server are scheduled.
#[derive(Clone, Copy, Debug, PartialEq, Eq, Structural)]
pub enum Executor {
    /// On a pool of threads, between which tasks may move.
    ThreadPool,
    /// On the thread that runs the server.
    CurrentThread,
}

/// The protocol that a connection speaks.
#[derive(Clone, Copy, Debug, PartialEq, Eq, Structural)]
pub enum Version {
    Http1,
    Http2,
}

/// A failure to accept a connection.
#[derive(Clone, Copy, Debug, PartialEq, Eq, Structural)]
pub enum AcceptError {
    /// The process has no file descriptor left.
    TooManyFiles,
    /// The peer gave the connection up before it was accepted.
    ConnectionAborted,
    /// Anything else.
    Fatal,
}

/// The ALPN token of HTTP/2.
pub open spec fn h2_token() -> Seq<u8> {
    seq![0x68u8, 0x32u8]
}

/// The protocol of a connection. Over TLS the negotiated ALPN token
/// decides; in the clear it is HTTP/1.1 unless HTTP/2 by prior knowledge
/// is configured.
pub open spec fn selected(tls: bool, alpn: Option<Seq<u8>>, prior_knowledge: bool) -> Version {
    if tls {
        if alpn == Some(h2_token()) {
            Version::Http2
        } else {
            Version::Http1
        }
    } else if prior_knowledge {
        Version::Http2
    } else {
        Version::Http1
    }
}

/// Selects the protocol of an accepted connection.
pub fn select_version(tls: bool, alpn: Option<&[u8]>, prior_knowledge: bool) -> (v: Version)
    ensures
        v == selected(
            tls,
            match alpn {
                Some(token) => Some(token@),
                None => None,
            },
            prior_knowledge,
        ),
{
    if tls {
        match alpn {
            Some(token) => {
                if token.len() == 2 && token[0] == 0x68 && token[1] == 0x32 {
                    assert(token@ =~= h2_token());
                    Version::Http2
                } else {
                    Version::Http1
                }
            },
            None => Version::Http1,
        }
    } else if prior_knowledge {
        Version::Http2
    } else {
        Version::Http1
    }
}

/// Over TLS the negotiated ALPN token alone decides the protocol: HTTP/2
/// for the token of HTTP/2 and HTTP/1.1 for any other or none. In the
/// clear the configuration alone decides.
pub proof fn lemma_alpn_decides_over_tls(alpn: Option<Seq<u8>>, prior_knowledge: bool)
    ensures
        selected(true, Some(h2_token()), prior_knowledge) == Version::Http2,
        alpn != Some(h2_token()) ==> selected(true, alpn, prior_knowledge) == Version::Http1,
        selected(false, alpn, true) == Version::Http2,
        selected(false, alpn, false) == Version::Http1,
{
}

impl AcceptError {
    /// Whether the acceptor goes on after the failure: it does after the
    /// two that pass by themselves.
    pub fn is_transient(&self) -> (b: bool)
        ensures
            b == (*self == AcceptError::TooManyFiles || *self == AcceptError::ConnectionAborted),
    {
        match self {
            AcceptError::TooManyFiles => true,
            AcceptError::ConnectionAborted => true,
            AcceptError::Fatal => false,
        }
    }
}

/// The configuration of a server: where it listens, how it wraps what it
/// accepts, the protocol settings, and the runtime it is to run on.
pub struct Server<L, A, R> {
    pub listener: L,
    pub acceptor: A,
    pub protocol: H2,
    pub executor: Executor,
    pub runtime: Option<R>,
}

impl<L, R> Server<L, (), R> {
    /// A server on `listener` that hands on what it accepts as it is, with
    /// default protocol settings, on a thread pool that it starts itself.
    pub fn bind(listener: L) -> (s: Self)
        ensures
            s.listener == listener,
            s.executor == Executor::ThreadPool,
            s.runtime is None,
    {
        Server {
            listener,
            acceptor: (),
            protocol: H2::new(),
            executor: Executor::ThreadPool,
            runtime: None,
        }
    }
}

impl<L, A, R> Server<L, A, R> {
    /// The same server with `acceptor` wrapping what it accepts.
    pub fn acceptor<A2>(self, acceptor: A2) -> (s: Server<L, A2, R>)
        ensures
            s.acceptor == acceptor,
            s.listener == self.listener,
            s.protocol == self.protocol,
            s.executor == self.executor,
            s.runtime == self.runtime,
    {
        Server {
            listener: self.listener,
            acceptor,
            protocol: self.protocol,
            executor: self.executor,
            runtime: self.runtime,
        }
    }

    /// The same server with the protocol settings `protocol`.
    pub fn protocol(self, protocol: H2) -> (s: Self)
        ensures
            s.protocol == protocol,
            s.listener == self.listener,
            s.acceptor == self.acceptor,
            s.executor == self.executor,
            s.runtime == self.runtime,
    {
        Server {
            listener: self.listener,
            acceptor: self.acceptor,
            protocol,
            executor: self.executor,
            runtime: self.runtime,
        }
    }

    /// The same server, to run on `runtime`.
    pub fn runtime<R2>(self, runtime: R2) -> (s: Server<L, A, R2>)
        ensures
            s.runtime == Some(runtime),
            s.listener == self.listener,
            s.acceptor == self.acceptor,
            s.protocol == self.protocol,
            s.executor == self.executor,
    {
        Server {
            listener: self.listener,
            acceptor: self.acceptor,
            protocol: self.protocol,
            executor: self.executor,
            runtime: Some(runtime),
        }
    }

    /// The same server, to run on the current thread, on a runtime that it
    /// starts itself.
    pub fn current_thread<R2>(self) -> (s: Server<L, A, R2>)
        ensures
            s.executor == Executor::CurrentThread,
            s.runtime is None,
            s.listener == self.listener,
            s.acceptor == self.acceptor,
            s.protocol == self.protocol,
    {
        Server {
            listener: self.listener,
            acceptor: self.acceptor,
            protocol: self.protocol,
            executor: Executor::CurrentThread,
            runtime: None,
        }
    }
}

/// What the supervisor does with an outcome of the acceptor.
#[derive(Clone, Copy, Debug, PartialEq, Eq, Structural)]
pub enum Accepted {
    /// Start a connection task that speaks this protocol.
    Spawn(Version),
    /// Drop what was accepted, or skip the failure, and accept on.
    Skip,
    /// Stop: the acceptor failed for good.
    Abort,
}

/// The supervisor's account of its connections.
#[derive(Clone, Copy, Debug)]
pub struct Supervisor {
    /// Whether connections are still accepted.
    pub accepting: bool,
    /// The number of connection tasks that run.
    pub live: usize,
}

impl Supervisor {
    /// A supervisor that accepts and has no connection yet.
    pub fn new() -> (s: Supervisor)
        ensures
            s == (Supervisor { accepting: true, live: 0 }),
    {
        Supervisor { accepting: true, live: 0 }
    }

    /// Whether the supervisor is finished: it accepts nothing any more and
    /// every connection task has ended.
    pub fn is_terminated(&self) -> (b: bool)
        ensures
            b == (!self.accepting && self.live == 0),
    {
        !self.accepting && self.live == 0
    }

    /// Decides on an accepted connection: it is served with the protocol
    /// selected for it, unless the supervisor accepts nothing any more or
    /// cannot count another task.
    pub fn on_accept(&mut self, tls: bool, alpn: Option<&[u8]>, prior_knowledge: bool) -> (r:
        Accepted)
        ensures
            final(self).accepting == old(self).accepting,
            old(self).accepting && old(self).live < usize::MAX ==> r == Accepted::Spawn(
                selected(
                    tls,
                    match alpn {
                        Some(token) => Some(token@),
                        None => None,
                    },
                    prior_knowledge,
                ),
            ) && final(self).live == old(self).live + 1,
            !(old(self).accepting && old(self).live < usize::MAX) ==> r == Accepted::Skip
                && final(self).live == old(self).live,
    {
        if self.accepting && self.live < usize::MAX {
            self.live = self.live + 1;
            Accepted::Spawn(select_version(tls, alpn, prior_knowledge))
        } else {
            Accepted::Skip
        }
    }

    /// Decides on a failure to accept: a transient one is skipped, any
    /// other stops the acceptor.
    pub fn on_accept_error(&mut self, error: AcceptError) -> (r: Accepted)
        ensures
            final(self).live == old(self).live,
            error != AcceptError::Fatal ==> r == Accepted::Skip && final(self).accepting == old(
                self,
            ).accepting,
            error == AcceptError::Fatal ==> r == Accepted::Abort && !final(self).accepting,
    {
        if error.is_transient() {
            Accepted::Skip
        } else {
            self.accepting = false;
            Accepted::Abort
        }
    }

    /// Records that a connection task has ended.
    pub fn on_closed(&mut self)
        ensures
            final(self).accepting == old(self).accepting,
            final(self).live == if old(self).live > 0 {
                (old(self).live - 1) as usize
            } else {
                0
            },
    {
        if self.live > 0 {
            self.live = self.live - 1;
        }
    }

    /// Stops accepting. Returns the number of connections on which the
    /// driver must invoke a graceful shutdown: all that run.
    pub fn shutdown(&mut self) -> (n: usize)
        ensures
            !final(self).accepting,
            final(self).live == old(self).live,
            n == old(self).live,
    {
        self.accepting = false;
        self.live
    }
}

} // verus!
