use mio_webserver::server::{
    subject_of_token, AcceptOutcome, AcceptStep, EventSubject, ReadStep, WebServer, WriteStep,
    LISTENER_TOKEN,
};
use mio_webserver::table::{Connection, ConnectionTable, Interest};

const HEAD_400: &[u8] = b"HTTP/1.0 400 Bad Request\r\nServer: mio webserver\r\n\r\n";
const HEAD_404: &[u8] = b"HTTP/1.0 404 Not Found\r\nServer: mio webserver\r\n\r\n";

#[test]
fn tokens_dispatch_to_listener_or_connection() {
    assert_eq!(subject_of_token(LISTENER_TOKEN), EventSubject::Listening);
    assert_eq!(subject_of_token(1), EventSubject::Conn(1));
    assert_eq!(subject_of_token(42), EventSubject::Conn(42));
}

#[test]
fn drain_accepts_every_pending_connection() {
    let mut server = WebServer::new();
    assert_eq!(server.on_accept(AcceptOutcome::Accepted), AcceptStep::Register(1));
    assert_eq!(server.on_accept(AcceptOutcome::Accepted), AcceptStep::Register(2));
    assert_eq!(server.on_accept(AcceptOutcome::Accepted), AcceptStep::Register(3));
    assert_eq!(server.on_accept(AcceptOutcome::WouldBlock), AcceptStep::DrainDone);
    assert_eq!(server.connection_count(), 3);
    for id in 1..=3 {
        assert_eq!(server.connection_interest(id), Some(Interest::Read));
    }
    assert_eq!(server.connection_interest(4), None);
}

#[test]
fn transient_accept_failure_keeps_draining() {
    let mut server = WebServer::new();
    assert_eq!(server.on_accept(AcceptOutcome::Accepted), AcceptStep::Register(1));
    assert_eq!(server.on_accept(AcceptOutcome::Failed), AcceptStep::Retry);
    assert_eq!(server.on_accept(AcceptOutcome::Accepted), AcceptStep::Register(2));
    assert_eq!(server.connection_count(), 2);
}

fn server_with_one_connection() -> WebServer {
    let mut server = WebServer::new();
    assert_eq!(server.on_accept(AcceptOutcome::Accepted), AcceptStep::Register(1));
    server
}

#[test]
fn readable_garbage_arms_a_400_flush() {
    let mut server = server_with_one_connection();
    let step = server.handle_read(1, b"GARBAGE\r\n\r\n");
    assert!(matches!(step, ReadStep::ArmWrite));
    assert_eq!(server.connection_interest(1), Some(Interest::Write));
    assert_eq!(server.pending_bytes(1), Some(HEAD_400.to_vec()));
}

#[test]
fn readable_get_asks_for_the_file() {
    let mut server = server_with_one_connection();
    let step = server.handle_read(1, b"GET /index.html HTTP/1.0\r\n\r\n");
    match step {
        ReadStep::NeedFile(path) => assert_eq!(path, b"/index.html".to_vec()),
        other => panic!("expected a file fetch, got {:?}", step_name(&other)),
    }
    // The connection still awaits its request until the file outcome arrives.
    assert_eq!(server.connection_interest(1), Some(Interest::Read));
    let armed = server.supply_file(1, Some(b"hello".to_vec()));
    assert!(armed);
    assert_eq!(server.connection_interest(1), Some(Interest::Write));
    assert_eq!(
        server.pending_bytes(1),
        Some(b"HTTP/1.0 200 OK\r\nServer: mio webserver\r\n\r\nhello".to_vec())
    );
}

#[test]
fn missing_file_arms_a_404_flush() {
    let mut server = server_with_one_connection();
    let step = server.handle_read(1, b"GET /nope HTTP/1.0\r\n\r\n");
    assert!(matches!(step, ReadStep::NeedFile(_)));
    assert!(server.supply_file(1, None));
    assert_eq!(server.pending_bytes(1), Some(HEAD_404.to_vec()));
}

#[test]
fn zero_byte_read_closes_the_connection() {
    let mut server = server_with_one_connection();
    let step = server.handle_read(1, b"");
    assert!(matches!(step, ReadStep::Closed));
    assert_eq!(server.connection_count(), 0);
    assert_eq!(server.connection_interest(1), None);
}

#[test]
fn unknown_connection_events_are_silent_no_ops() {
    let mut server = server_with_one_connection();
    assert!(matches!(server.handle_read(9, b"GET / HTTP/1.0\r\n"), ReadStep::NoOp));
    assert!(!server.supply_file(9, None));
    assert_eq!(server.on_write(9, 0), WriteStep::NoOp);
    server.on_error(9);
    assert_eq!(server.connection_count(), 1);
}

#[test]
fn short_writes_advance_the_cursor_until_done() {
    let mut server = server_with_one_connection();
    assert!(matches!(server.handle_read(1, b"GARBAGE\r\n\r\n"), ReadStep::ArmWrite));
    let full = server.pending_bytes(1).unwrap();
    assert_eq!(server.on_write(1, 10), WriteStep::Pending);
    assert_eq!(server.connection_interest(1), Some(Interest::Write));
    assert_eq!(server.pending_bytes(1), Some(full[10..].to_vec()));
    let remaining: usize = full.len() - 10;
    assert_eq!(server.on_write(1, remaining), WriteStep::Done);
    assert_eq!(server.connection_count(), 0);
}

#[test]
fn io_errors_close_only_that_connection() {
    let mut server = server_with_one_connection();
    assert_eq!(server.on_accept(AcceptOutcome::Accepted), AcceptStep::Register(2));
    server.on_error(1);
    assert_eq!(server.connection_count(), 1);
    assert_eq!(server.connection_interest(1), None);
    assert_eq!(server.connection_interest(2), Some(Interest::Read));
}

#[test]
fn identifiers_are_never_reused_while_open() {
    let mut server = server_with_one_connection();
    assert!(matches!(server.handle_read(1, b""), ReadStep::Closed));
    // The identifier counter is monotonic: a later accept gets a fresh id.
    assert_eq!(server.on_accept(AcceptOutcome::Accepted), AcceptStep::Register(2));
}

#[test]
fn table_reports_duplicate_insertions_and_keeps_the_entry() {
    let mut table = ConnectionTable::new();
    assert!(table.insert(7, Connection::new_awaiting_request()).is_ok());
    let err = table
        .insert(7, Connection::new_awaiting_request())
        .expect_err("a duplicate identifier is a defect signal");
    assert_eq!(err.id, 7);
    assert_eq!(table.len(), 1);
    assert!(table.contains(7));
    assert!(table.get(7).is_some());
    assert!(table.get(8).is_none());
    let taken = table.take(7);
    assert!(taken.is_some());
    assert_eq!(table.len(), 0);
    assert!(table.take(7).is_none());
}

fn step_name(step: &ReadStep) -> &'static str {
    match step {
        ReadStep::NoOp => "NoOp",
        ReadStep::Closed => "Closed",
        ReadStep::ArmWrite => "ArmWrite",
        ReadStep::NeedFile(_) => "NeedFile",
    }
}
