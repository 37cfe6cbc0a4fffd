use izanami::server::{select_version, AcceptError, Accepted, Executor, Server, Supervisor, Version};

#[test]
fn alpn_selects_the_protocol_over_tls() {
    assert_eq!(select_version(true, Some(b"h2"), false), Version::Http2);
    assert_eq!(select_version(true, Some(b"http/1.1"), false), Version::Http1);
    assert_eq!(select_version(true, Some(b"h3"), false), Version::Http1);
    assert_eq!(select_version(true, Some(b"h2c"), false), Version::Http1);
    assert_eq!(select_version(true, Some(b""), true), Version::Http1);
    assert_eq!(select_version(true, None, true), Version::Http1);
}

#[test]
fn cleartext_is_http1_without_prior_knowledge() {
    assert_eq!(select_version(false, None, false), Version::Http1);
    assert_eq!(select_version(false, Some(b"h2"), false), Version::Http1);
    assert_eq!(select_version(false, None, true), Version::Http2);
}

#[test]
fn transient_accept_errors_are_skipped() {
    let mut sup = Supervisor::new();
    assert_eq!(sup.on_accept_error(AcceptError::TooManyFiles), Accepted::Skip);
    assert_eq!(sup.on_accept_error(AcceptError::ConnectionAborted), Accepted::Skip);
    assert!(sup.accepting);
    assert_eq!(sup.on_accept_error(AcceptError::Fatal), Accepted::Abort);
    assert!(!sup.accepting);
    assert!(sup.is_terminated());
}

#[test]
fn supervisor_outlives_its_connections() {
    let mut sup = Supervisor::new();
    assert_eq!(sup.on_accept(true, Some(b"h2"), false), Accepted::Spawn(Version::Http2));
    assert_eq!(sup.on_accept(false, None, false), Accepted::Spawn(Version::Http1));
    assert_eq!(sup.live, 2);
    assert_eq!(sup.shutdown(), 2);
    assert!(!sup.is_terminated());
    assert_eq!(sup.on_accept(false, None, false), Accepted::Skip);
    assert_eq!(sup.live, 2);
    sup.on_closed();
    assert!(!sup.is_terminated());
    sup.on_closed();
    assert!(sup.is_terminated());
    sup.on_closed();
    assert_eq!(sup.live, 0);
}

#[test]
fn server_builder_keeps_what_it_was_given() {
    let server: Server<&str, (), ()> = Server::bind("127.0.0.1:4000");
    assert_eq!(server.listener, "127.0.0.1:4000");
    assert_eq!(server.executor, Executor::ThreadPool);
    assert!(server.runtime.is_none());
    let server = server.acceptor(7u8).runtime("rt");
    assert_eq!(server.acceptor, 7u8);
    assert_eq!(server.runtime, Some("rt"));
    let server: Server<&str, u8, u16> = server.current_thread();
    assert_eq!(server.executor, Executor::CurrentThread);
    assert!(server.runtime.is_none());
    assert_eq!(server.listener, "127.0.0.1:4000");
    assert_eq!(server.acceptor, 7u8);
}
