use salvo_conn::{Action, ErrorKind, Event, IoError, Operation, TlsConnStream, Version};

/// An established stream as a test sees it.
#[derive(Debug, PartialEq, Eq)]
struct Stream {
    version: Version,
    inbox: Vec<u8>,
    outbox: Vec<u8>,
    flushed: bool,
    closed: bool,
}

impl Stream {
    fn new(version: Version, inbox: &[u8]) -> Stream {
        Stream { version, inbox: inbox.to_vec(), outbox: vec![], flushed: false, closed: false }
    }
}

/// A handshake as a test sees it: what each poll of it will yield, in order,
/// `None` standing for "still in flight"; and how often it has been polled.
struct Handshake {
    polls: Vec<Option<Result<Stream, String>>>,
    polled: usize,
}

impl Handshake {
    fn new(polls: Vec<Option<Result<Stream, String>>>) -> Handshake {
        Handshake { polls, polled: 0 }
    }

    fn poll(&mut self) -> Event<Stream> {
        self.polled += 1;
        match self.polls.remove(0) {
            None => Event::Pending,
            Some(Ok(stream)) => Event::Established(stream),
            Some(Err(cause)) => Event::Rejected(cause),
        }
    }
}

type Conn = TlsConnStream<Handshake, Stream>;

/// What one call of an operation gave its caller.
#[derive(Debug, PartialEq, Eq)]
enum Answer {
    Pending,
    Done(usize),
    Version(Version),
    NoVersion,
    Failed(IoError),
}

/// Runs one operation as a driver does: reports the issue, polls the
/// handshake when told to, and carries out what it is told last. Also says
/// how many times it polled the handshake.
fn call(conn: &mut Conn, op: Operation, payload: &[u8]) -> (Answer, usize) {
    let mut polls = 0;
    let mut event = Event::Issued;
    loop {
        let action = match op {
            Operation::Read => conn.poll_read(event),
            Operation::Write => conn.poll_write(event),
            Operation::Flush => conn.poll_flush(event),
            Operation::Shutdown => conn.poll_shutdown(event),
            Operation::HttpVersion => conn.http_version(event),
        };
        match action {
            Action::Handshake => {
                polls += 1;
                event = conn.handshake_mut().unwrap().poll();
            }
            Action::Suspend => return (Answer::Pending, polls),
            Action::Delegate(delegated) => {
                assert_eq!(delegated, op);
                let stream = conn.stream_mut().unwrap();
                let answer = match delegated {
                    Operation::Read => Answer::Done(stream.inbox.drain(..).count()),
                    Operation::Write => {
                        stream.outbox.extend_from_slice(payload);
                        Answer::Done(payload.len())
                    }
                    Operation::Flush => {
                        stream.flushed = true;
                        Answer::Done(0)
                    }
                    Operation::Shutdown => {
                        stream.closed = true;
                        Answer::Done(0)
                    }
                    Operation::HttpVersion => Answer::Version(stream.version),
                };
                return (answer, polls);
            }
            Action::Fail(error) => return (Answer::Failed(error), polls),
            Action::NoVersion => return (Answer::NoVersion, polls),
        }
    }
}

fn failing(cause: &str) -> Conn {
    TlsConnStream::new(Handshake::new(vec![Some(Err(String::from(cause)))]))
}

fn succeeding(version: Version, inbox: &[u8]) -> Conn {
    TlsConnStream::new(Handshake::new(vec![Some(Ok(Stream::new(version, inbox)))]))
}

fn invalid_data(message: &str) -> IoError {
    IoError::new(ErrorKind::InvalidData, String::from(message))
}

const IO: [Operation; 4] = [Operation::Read, Operation::Write, Operation::Flush, Operation::Shutdown];

#[test]
fn new_connection_is_handshaking() {
    let conn = succeeding(Version::Http11, &[]);
    assert!(conn.is_handshaking());
    assert!(!conn.is_ready());
    assert!(!conn.is_failed());
    assert_eq!(conn.failure(), None);
    assert_eq!(conn.stream(), None);
}

#[test]
fn issued_operation_asks_for_the_handshake() {
    for op in [Operation::Read, Operation::Write, Operation::Flush, Operation::Shutdown, Operation::HttpVersion] {
        let mut conn = succeeding(Version::Http11, &[]);
        assert_eq!(conn.poll(op, Event::Issued), Action::Handshake);
        assert!(conn.is_handshaking());
        assert_eq!(conn.handshake_mut().unwrap().polled, 0);
    }
}

#[test]
fn pending_handshake_suspends_the_operation() {
    let mut conn: Conn =
        TlsConnStream::new(Handshake::new(vec![None, None, Some(Ok(Stream::new(Version::Http11, b"abc")))]));
    assert_eq!(call(&mut conn, Operation::Read, &[]), (Answer::Pending, 1));
    assert!(conn.is_handshaking());
    assert_eq!(call(&mut conn, Operation::Write, b"x"), (Answer::Pending, 1));
    assert!(conn.is_handshaking());
    assert_eq!(call(&mut conn, Operation::Read, &[]), (Answer::Done(3), 1));
    assert!(conn.is_ready());
}

#[test]
fn failed_handshake_is_replayed_on_every_read() {
    let mut conn = failing("cert mismatch");
    let (first, polls) = call(&mut conn, Operation::Read, &[]);
    assert_eq!(polls, 1);
    match first {
        Answer::Failed(error) => {
            assert!(error.message().contains("cert mismatch"));
            assert_eq!(error.kind(), ErrorKind::InvalidData);
        }
        other => panic!("{:?}", other),
    }
    let (second, polls) = call(&mut conn, Operation::Read, &[]);
    assert_eq!(polls, 0);
    match second {
        Answer::Failed(error) => assert!(error.message().contains("cert mismatch")),
        other => panic!("{:?}", other),
    }
    assert!(conn.is_failed());
    assert_eq!(conn.failure(), Some("cert mismatch"));
    assert!(conn.handshake_mut().is_none());
    assert!(conn.stream_mut().is_none());
}

#[test]
fn failure_is_replayed_without_end() {
    let mut conn = failing("bad record mac");
    for round in 0..100 {
        for op in IO {
            let (answer, polls) = call(&mut conn, op, b"payload");
            assert_eq!(answer, Answer::Failed(invalid_data("bad record mac")));
            assert_eq!(polls, if round == 0 && op == Operation::Read { 1 } else { 0 });
            assert_eq!(conn.failure(), Some("bad record mac"));
        }
    }
}

#[test]
fn failure_is_the_same_whatever_is_reported() {
    let mut conn = failing("no shared cipher");
    assert_eq!(call(&mut conn, Operation::Flush, &[]).0, Answer::Failed(invalid_data("no shared cipher")));
    for op in IO {
        assert_eq!(conn.poll(op, Event::Issued), Action::Fail(invalid_data("no shared cipher")));
        assert_eq!(conn.poll(op, Event::Pending), Action::Fail(invalid_data("no shared cipher")));
        assert_eq!(
            conn.poll(op, Event::Established(Stream::new(Version::Http2, &[]))),
            Action::Fail(invalid_data("no shared cipher"))
        );
        assert_eq!(
            conn.poll(op, Event::Rejected(String::from("another cause"))),
            Action::Fail(invalid_data("no shared cipher"))
        );
        assert!(conn.is_failed());
        assert_eq!(conn.failure(), Some("no shared cipher"));
    }
}

#[test]
fn version_is_known_once_the_handshake_is_done() {
    let mut conn: Conn =
        TlsConnStream::new(Handshake::new(vec![None, Some(Ok(Stream::new(Version::Http2, &[])))]));
    assert_eq!(call(&mut conn, Operation::HttpVersion, &[]), (Answer::Pending, 1));
    assert_eq!(call(&mut conn, Operation::HttpVersion, &[]), (Answer::Version(Version::Http2), 1));
    assert_eq!(call(&mut conn, Operation::HttpVersion, &[]), (Answer::Version(Version::Http2), 0));
    assert!(conn.is_ready());
}

#[test]
fn version_query_runs_the_handshake_first() {
    let mut conn = succeeding(Version::Http11, &[]);
    assert_eq!(conn.http_version(Event::Issued), Action::Handshake);
    let event = conn.handshake_mut().unwrap().poll();
    assert_eq!(conn.http_version(event), Action::Delegate(Operation::HttpVersion));
    assert_eq!(conn.stream().map(|stream| stream.version), Some(Version::Http11));
}

#[test]
fn version_is_unknown_after_a_failed_handshake() {
    let mut conn = failing("cert mismatch");
    assert_eq!(call(&mut conn, Operation::HttpVersion, &[]), (Answer::NoVersion, 1));
    assert_eq!(call(&mut conn, Operation::HttpVersion, &[]), (Answer::NoVersion, 0));
    assert_eq!(conn.http_version(Event::Pending), Action::NoVersion);
    assert_eq!(call(&mut conn, Operation::Write, b"x").0, Answer::Failed(invalid_data("cert mismatch")));
}

#[test]
fn write_is_delivered_in_the_call_that_completes_the_handshake() {
    let mut conn = succeeding(Version::Http11, &[]);
    let (answer, polls) = call(&mut conn, Operation::Write, b"ping");
    assert_eq!(answer, Answer::Done(4));
    assert_eq!(polls, 1);
    assert_eq!(conn.stream().unwrap().outbox, b"ping".to_vec());
}

#[test]
fn every_operation_is_retried_on_the_new_stream() {
    for op in IO {
        let mut conn = succeeding(Version::Http11, b"hello");
        assert_eq!(conn.poll(op, Event::Issued), Action::Handshake);
        let event = conn.handshake_mut().unwrap().poll();
        assert_eq!(conn.poll(op, event), Action::Delegate(op));
        assert_eq!(conn.stream(), Some(&Stream::new(Version::Http11, b"hello")));
    }
}

#[test]
fn ready_connection_delegates_everything() {
    let mut conn = succeeding(Version::Http11, b"hello");
    assert_eq!(call(&mut conn, Operation::Read, &[]), (Answer::Done(5), 1));
    assert_eq!(call(&mut conn, Operation::Write, b"abc"), (Answer::Done(3), 0));
    assert_eq!(call(&mut conn, Operation::Write, b"de"), (Answer::Done(2), 0));
    assert_eq!(call(&mut conn, Operation::Flush, &[]), (Answer::Done(0), 0));
    assert_eq!(call(&mut conn, Operation::Shutdown, &[]), (Answer::Done(0), 0));
    let stream = conn.stream().unwrap();
    assert_eq!(stream.outbox, b"abcde".to_vec());
    assert!(stream.inbox.is_empty());
    assert!(stream.flushed);
    assert!(stream.closed);
    assert!(conn.handshake_mut().is_none());
    assert_eq!(conn.failure(), None);
}

#[test]
fn ready_connection_stays_ready_whatever_is_reported() {
    let mut conn = succeeding(Version::Http11, b"hello");
    assert_eq!(call(&mut conn, Operation::Flush, &[]).0, Answer::Done(0));
    for op in [Operation::Read, Operation::Write, Operation::Flush, Operation::Shutdown, Operation::HttpVersion] {
        assert_eq!(conn.poll(op, Event::Issued), Action::Delegate(op));
        assert_eq!(conn.poll(op, Event::Pending), Action::Delegate(op));
        assert_eq!(conn.poll(op, Event::Rejected(String::from("late failure"))), Action::Delegate(op));
        assert_eq!(conn.poll(op, Event::Established(Stream::new(Version::Http3, b"other"))), Action::Delegate(op));
        assert!(conn.is_ready());
        assert_eq!(conn.stream().unwrap().inbox, b"hello".to_vec());
        assert_eq!(conn.stream().unwrap().version, Version::Http11);
    }
}

#[test]
fn handshake_that_finishes_unasked_is_taken() {
    let mut conn = succeeding(Version::Http11, &[]);
    assert_eq!(
        conn.poll_read(Event::Established(Stream::new(Version::Http2, b"x"))),
        Action::Delegate(Operation::Read)
    );
    assert_eq!(conn.stream().unwrap().version, Version::Http2);

    let mut conn = succeeding(Version::Http11, &[]);
    assert_eq!(conn.poll_shutdown(Event::Rejected(String::from("eof"))), Action::Fail(invalid_data("eof")));
    assert_eq!(conn.failure(), Some("eof"));

    let mut conn = succeeding(Version::Http11, &[]);
    assert_eq!(conn.poll_flush(Event::Pending), Action::Suspend);
    assert!(conn.is_handshaking());
}

#[test]
fn empty_cause_is_kept_as_it_is() {
    let mut conn = failing("");
    assert_eq!(call(&mut conn, Operation::Read, &[]).0, Answer::Failed(invalid_data("")));
    assert_eq!(conn.failure(), Some(""));
}

#[test]
fn error_tells_its_kind_and_message() {
    let error = IoError::new(ErrorKind::Other, String::from("broken pipe"));
    assert_eq!(error.kind(), ErrorKind::Other);
    assert_eq!(error.message(), "broken pipe");
    assert_ne!(error, invalid_data("broken pipe"));
    assert_eq!(error.clone(), error);
}
