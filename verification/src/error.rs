//! The errors of a connection and of its streams.

use vstd::prelude::*;

verus! {

/// The RST_STREAM code that the engine emits when the application or its
/// body fails.
pub const INTERNAL_ERROR: u32 = 2;

/// An error of the protocol layer.
pub enum ProtocolError {
    /// The protocol engine reported an error, with its reason code where it
    /// carries one.
    Engine(Option<u32>),
    /// The peer reset the stream, with the reason it gave.
    Reset(u32),
    /// The application asked to switch protocols on an HTTP/2 stream.
    Upgrade,
    /// The response head cannot take the fields that the engine adds.
    HeadTooLarge,
    /// The driver handed in an event that the stream's phase does not allow.
    Unexpected,
}

/// An error of a response body.
pub enum BodyError<E> {
    /// The body itself failed.
    Failed(E),
    /// The body yielded more or fewer bytes than the length it declared.
    LengthMismatch,
    /// The body yielded data after its end, or trailers before it.
    OutOfOrder,
}

/// What went wrong, by the layer it came from.
pub enum H2ErrorKind<E> {
    Protocol(ProtocolError),
    Service(E),
    Body(BodyError<E>),
}

/// The error value of a connection or of one of its streams.
pub struct H2Error<E> {
    pub kind: H2ErrorKind<E>,
}

impl<E> H2Error<E> {
    /// An error of the protocol layer.
    pub fn new_protocol(err: ProtocolError) -> (e: Self)
        ensures
            e == (H2Error::<E> { kind: H2ErrorKind::Protocol(err) }),
    {
        H2Error { kind: H2ErrorKind::Protocol(err) }
    }

    /// An error that the application's handler returned.
    pub fn new_service(err: E) -> (e: Self)
        ensures
            e == (H2Error { kind: H2ErrorKind::Service(err) }),
    {
        H2Error { kind: H2ErrorKind::Service(err) }
    }

    /// An error of the response body.
    pub fn new_body(err: BodyError<E>) -> (e: Self)
        ensures
            e == (H2Error { kind: H2ErrorKind::Body(err) }),
    {
        H2Error { kind: H2ErrorKind::Body(err) }
    }

    /// Whether the error came from the protocol layer.
    pub fn is_protocol(&self) -> (b: bool)
        ensures
            b == (self.kind is Protocol),
    {
        match self.kind {
            H2ErrorKind::Protocol(_) => true,
            _ => false,
        }
    }
}

} // verus!
