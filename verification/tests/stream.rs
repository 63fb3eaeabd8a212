use session_bridge::config::Config;
use session_bridge::connection::{Connection, IoHooks};
use session_bridge::enums::{CallbackResult, Mode, Poll, WakeHandle};
use session_bridge::error::{Error, IoError};
use session_bridge::stream::{
    drive, into_io, signal, Opening, Signal, TlsAcceptor, TlsConnector, TlsHandshake, TlsStream,
};
use std::collections::VecDeque;
use tokio::io::ReadBuf;

const CTX: WakeHandle = WakeHandle { task: 7 };

const IDLE: IoHooks = IoHooks {
    receive_callback: false,
    send_callback: false,
    receive_context: false,
    send_context: false,
    waker: None,
};

const INSTALLED: IoHooks = IoHooks {
    receive_callback: true,
    send_callback: true,
    receive_context: true,
    send_context: true,
    waker: Some(CTX),
};

/// A transport in memory. It is ready on the polls that `ready` says, and
/// remembers which wake handles it was polled with.
#[derive(Debug, Default, PartialEq)]
struct Pipe {
    incoming: VecDeque<u8>,
    outgoing: Vec<u8>,
    ready: VecDeque<bool>,
    broken: bool,
    polled_with: Vec<WakeHandle>,
    flushed: usize,
    closed: bool,
}

impl Pipe {
    fn with_incoming(bytes: &[u8]) -> Pipe {
        Pipe { incoming: bytes.iter().copied().collect(), ..Pipe::default() }
    }

    fn is_ready(&mut self, waker: WakeHandle) -> Result<bool, IoError> {
        self.polled_with.push(waker);
        if self.broken {
            return Err(IoError::Transport(104));
        }
        Ok(self.ready.pop_front().unwrap_or(true))
    }
}

fn read(pipe: &mut Pipe, waker: WakeHandle, buf: &mut [u8]) -> Poll<Result<usize, IoError>> {
    match pipe.is_ready(waker) {
        Err(e) => Poll::Ready(Err(e)),
        Ok(false) => Poll::Pending,
        Ok(true) => {
            let mut n = 0;
            while n < buf.len() {
                match pipe.incoming.pop_front() {
                    Some(b) => buf[n] = b,
                    None => break,
                }
                n += 1;
            }
            Poll::Ready(Ok(n))
        }
    }
}

fn write(pipe: &mut Pipe, waker: WakeHandle, buf: &[u8]) -> Poll<Result<usize, IoError>> {
    match pipe.is_ready(waker) {
        Err(e) => Poll::Ready(Err(e)),
        Ok(false) => Poll::Pending,
        Ok(true) => {
            pipe.outgoing.extend_from_slice(buf);
            Poll::Ready(Ok(buf.len()))
        }
    }
}

fn flush(pipe: &mut Pipe, waker: WakeHandle) -> Poll<Result<(), IoError>> {
    match pipe.is_ready(waker) {
        Err(e) => Poll::Ready(Err(e)),
        Ok(false) => Poll::Pending,
        Ok(true) => {
            pipe.flushed += 1;
            Poll::Ready(Ok(()))
        }
    }
}

fn close(pipe: &mut Pipe, waker: WakeHandle) -> Poll<Result<(), IoError>> {
    match pipe.is_ready(waker) {
        Err(e) => Poll::Ready(Err(e)),
        Ok(false) => Poll::Pending,
        Ok(true) => {
            pipe.closed = true;
            Poll::Ready(Ok(()))
        }
    }
}

/// What the engine makes of an adapter's status word.
fn engine_result(status: i32) -> Result<usize, Error> {
    if status >= 0 {
        Ok(status as usize)
    } else if errno::errno().0 == libc::EWOULDBLOCK {
        Err(Error::Blocked)
    } else {
        Err(Error::Io)
    }
}

/// The engine's entry point for receiving: it asks the adapter for bytes.
fn engine_recv(tls: &mut TlsStream<Pipe>, buf: &mut [u8]) -> Result<usize, Error> {
    errno::set_errno(errno::Errno(0));
    engine_result(tls.recv_io_cb(buf, read))
}

/// The engine's entry point for sending: it hands the adapter the bytes.
fn engine_send(tls: &mut TlsStream<Pipe>, buf: &[u8]) -> Result<usize, Error> {
    errno::set_errno(errno::Errno(0));
    engine_result(tls.send_io_cb(buf, write))
}

/// A handshake that needs to read one byte and to write one.
fn engine_negotiate(tls: &mut TlsStream<Pipe>) -> Result<(), Error> {
    let mut hello = [0u8; 1];
    if engine_recv(tls, &mut hello)? == 0 {
        return Err(Error::Negotiation);
    }
    engine_send(tls, &[hello[0] + 1])?;
    Ok(())
}

fn open_stream(pipe: Pipe) -> TlsStream<Pipe> {
    match TlsStream::open(Connection::new_server(), pipe, CTX, |_t: &mut TlsStream<Pipe>| Ok(())) {
        Opening::Ready(Ok(tls)) => tls,
        other => panic!("not opened: {:?}", other),
    }
}

#[test]
fn with_io_installs_for_the_step_only() {
    let mut tls = open_stream(Pipe::default());
    assert_eq!(tls.as_ref().io(), IDLE);
    let step = tls.with_io(CTX, |t: &mut TlsStream<Pipe>| Ok(t.as_ref().io()));
    assert_eq!(step, Poll::Ready(Ok(INSTALLED)));
    assert_eq!(tls.as_ref().io(), IDLE);
}

#[test]
fn with_io_uses_the_wake_handle_of_each_poll() {
    let mut tls = open_stream(Pipe::default());
    for task in [1u64, 2, 3] {
        let ctx = WakeHandle { task };
        let step = tls.with_io(ctx, |t: &mut TlsStream<Pipe>| Ok(t.as_ref().waker()));
        assert_eq!(step, Poll::Ready(Ok(Some(ctx))));
        assert_eq!(tls.as_ref().waker(), None);
    }
}

#[test]
fn with_io_maps_what_the_engine_returns() {
    let mut tls = open_stream(Pipe::default());
    assert_eq!(tls.with_io(CTX, |_t: &mut TlsStream<Pipe>| Ok(17usize)), Poll::Ready(Ok(17)));
    assert_eq!(
        tls.with_io(CTX, |_t: &mut TlsStream<Pipe>| Err::<usize, Error>(Error::Blocked)),
        Poll::Pending
    );
    assert_eq!(
        tls.with_io(CTX, |_t: &mut TlsStream<Pipe>| Err::<usize, Error>(Error::Negotiation)),
        Poll::Ready(Err(Error::Negotiation))
    );
    assert_eq!(
        tls.with_io(CTX, |_t: &mut TlsStream<Pipe>| Err::<usize, Error>(Error::Io)),
        Poll::Ready(Err(Error::Io))
    );
}

#[test]
fn with_io_uninstalls_on_every_path() {
    let mut tls = open_stream(Pipe::default());
    let _ = tls.with_io(CTX, |_t: &mut TlsStream<Pipe>| Err::<(), Error>(Error::Negotiation));
    assert_eq!(tls.as_ref().io(), IDLE);
    let _ = tls.with_io(CTX, |_t: &mut TlsStream<Pipe>| Err::<(), Error>(Error::Blocked));
    assert_eq!(tls.as_ref().io(), IDLE);
    // An engine that meddles with what is installed changes nothing of that.
    let _ = tls.with_io(CTX, |t: &mut TlsStream<Pipe>| {
        t.as_mut().set_waker(Some(WakeHandle { task: 99 }));
        t.as_mut().set_send_callback(false);
        Ok(())
    });
    assert_eq!(tls.as_ref().io(), IDLE);
}

#[test]
fn with_io_calls_the_engine_once() {
    let mut tls = open_stream(Pipe::default());
    let mut calls = 0;
    let _ = tls.with_io(CTX, |_t: &mut TlsStream<Pipe>| {
        calls += 1;
        Ok(())
    });
    assert_eq!(calls, 1);
}

#[test]
fn drive_and_into_io() {
    assert_eq!(drive(Ok::<u8, Error>(3)), Poll::Ready(Ok(3)));
    assert_eq!(drive(Err::<u8, Error>(Error::Blocked)), Poll::Pending);
    assert_eq!(drive(Err::<u8, Error>(Error::InvalidInput)), Poll::Ready(Err(Error::InvalidInput)));
    assert_eq!(
        drive(Err::<u8, Error>(Error::Application("x".into()))),
        Poll::Ready(Err(Error::Application("x".into())))
    );
    assert_eq!(into_io(Poll::Ready(Ok::<u8, Error>(3))), Poll::Ready(Ok(3)));
    assert_eq!(into_io(Poll::<Result<u8, Error>>::Pending), Poll::Pending);
    assert_eq!(
        into_io(Poll::Ready(Err::<u8, Error>(Error::Negotiation))),
        Poll::Ready(Err(IoError::Session(Error::Negotiation)))
    );
    assert_eq!(IoError::other(Error::Io), IoError::Session(Error::Io));
    assert!(Poll::Ready(1).is_ready());
    assert!(!Poll::Ready(1).is_pending());
    assert!(Poll::<u8>::Pending.is_pending());
    assert!(Error::Blocked.is_blocked());
    assert!(!Error::Io.is_blocked());
}

fn report(outcome: Poll<Result<usize, IoError>>) -> i32 {
    signal(&outcome).tell()
}

#[test]
fn signal_decides_what_to_tell() {
    assert_eq!(signal(&Poll::Ready(Ok(0))), Signal::Count(0));
    assert_eq!(signal(&Poll::Ready(Ok(17))), Signal::Count(17));
    assert_eq!(signal(&Poll::Pending), Signal::WouldBlock);
    assert_eq!(signal(&Poll::Ready(Err(IoError::Transport(32)))), Signal::Failed);
    assert_eq!(signal(&Poll::Ready(Err(IoError::Session(Error::Io)))), Signal::Failed);
}

#[test]
fn signal_status_is_the_count_or_failure() {
    assert_eq!(Signal::Count(0).into_status(), 0);
    assert_eq!(Signal::Count(5).into_status(), 5);
    assert_eq!(Signal::Count(i32::MAX as usize).into_status(), i32::MAX);
    assert_eq!(Signal::WouldBlock.into_status(), -1);
    assert_eq!(Signal::Failed.into_status(), -1);
    assert_eq!(CallbackResult::Failure.into_status(), -1);
    assert_eq!(CallbackResult::Success.into_status(), 0);
}

#[test]
fn signal_code_is_the_indicator_to_write() {
    // With a count the indicator is not written.
    assert_eq!(Signal::Count(3).code(11, 5), None);
    // A transport that is not ready is told by the would-block code.
    assert_eq!(Signal::WouldBlock.code(11, 5), Some(11));
    assert_eq!(Signal::WouldBlock.code(35, 5), Some(35));
    // One that failed is told by the code for failed input or output.
    assert_eq!(Signal::Failed.code(11, 5), Some(5));
    // Never by the would-block code, whatever the platform's codes are.
    assert_eq!(Signal::Failed.code(5, 5), Some(0));
    assert_eq!(Signal::Failed.code(0, 0), Some(1));
    assert_eq!(Signal::Failed.code(0, 7), Some(7));
}

#[test]
fn report_gives_the_count_or_failure() {
    assert_eq!(report(Poll::Ready(Ok(0))), 0);
    assert_eq!(report(Poll::Ready(Ok(5))), 5);
    assert_eq!(report(Poll::Ready(Ok(i32::MAX as usize))), i32::MAX);
    assert_eq!(report(Poll::Ready(Err(IoError::Transport(32)))), -1);
    assert_eq!(report(Poll::Pending), -1);
}

#[test]
fn report_keeps_the_low_bits_of_a_count_too_large() {
    assert_eq!(report(Poll::Ready(Ok(i32::MAX as usize + 1))), i32::MIN);
    assert_eq!(report(Poll::Ready(Ok(u32::MAX as usize))), -1);
}

#[test]
fn would_block_is_told_through_the_error_indicator() {
    errno::set_errno(errno::Errno(0));
    assert_eq!(report(Poll::Pending), -1);
    assert_eq!(errno::errno().0, libc::EWOULDBLOCK);
    assert_eq!(Signal::WouldBlock.tell(), -1);
    assert_eq!(errno::errno().0, libc::EWOULDBLOCK);
}

#[test]
fn a_failed_transport_is_never_read_as_would_block() {
    // A would-block left from an earlier call is written over.
    errno::set_errno(errno::Errno(libc::EWOULDBLOCK));
    assert_eq!(report(Poll::Ready(Err(IoError::Transport(5)))), -1);
    assert_ne!(errno::errno().0, libc::EWOULDBLOCK);
    assert_eq!(errno::errno().0, libc::EIO);

    errno::set_errno(errno::Errno(0));
    assert_eq!(Signal::Failed.tell(), -1);
    assert_eq!(errno::errno().0, libc::EIO);
}

#[test]
fn a_count_leaves_the_error_indicator_alone() {
    errno::set_errno(errno::Errno(0));
    assert_eq!(report(Poll::Ready(Ok(3))), 3);
    assert_eq!(errno::errno().0, 0);
    errno::set_errno(errno::Errno(libc::EWOULDBLOCK));
    assert_eq!(report(Poll::Ready(Ok(0))), 0);
    assert_eq!(errno::errno().0, libc::EWOULDBLOCK);
}

#[test]
fn adapters_tell_the_engine_through_status_and_indicator() {
    let mut pipe = Pipe::with_incoming(&[1, 2]);
    pipe.ready = VecDeque::from(vec![false, true]);
    let mut tls = open_stream(pipe);
    let step = tls.with_io(CTX, |t: &mut TlsStream<Pipe>| {
        let mut buf = [0u8; 2];
        errno::set_errno(errno::Errno(0));
        let first = t.recv_io_cb(&mut buf, read);
        let after_first = errno::errno().0;
        let second = t.recv_io_cb(&mut buf, read);
        Ok((first, after_first, second, buf))
    });
    assert_eq!(step, Poll::Ready(Ok((-1, libc::EWOULDBLOCK, 2, [1, 2]))));

    let mut pipe = Pipe::default();
    pipe.broken = true;
    let mut tls = open_stream(pipe);
    let step = tls.with_io(CTX, |t: &mut TlsStream<Pipe>| {
        errno::set_errno(errno::Errno(libc::EWOULDBLOCK));
        let sent = t.send_io_cb(&[1], write);
        let after_send = errno::errno().0;
        errno::set_errno(errno::Errno(libc::EWOULDBLOCK));
        let polled = t.poll_io(|_p: &mut Pipe, _w: WakeHandle| {
            Poll::Ready(Err(IoError::Transport(9)))
        });
        Ok((sent, after_send, polled, errno::errno().0))
    });
    assert_eq!(step, Poll::Ready(Ok((-1, libc::EIO, -1, libc::EIO))));
}

#[test]
fn poll_io_polls_with_the_installed_wake_handle() {
    let mut tls = open_stream(Pipe::default());
    let step = tls.with_io(CTX, |t: &mut TlsStream<Pipe>| {
        let status = t.poll_io(|pipe: &mut Pipe, waker: WakeHandle| {
            pipe.polled_with.push(waker);
            Poll::Ready(Ok(12))
        });
        Ok(status)
    });
    assert_eq!(step, Poll::Ready(Ok(12)));
    let (_, pipe) = tls.into_inner();
    assert_eq!(pipe.polled_with, vec![CTX]);
}

#[test]
fn adapters_outside_a_step_fail_and_leave_the_transport_alone() {
    let mut tls = open_stream(Pipe::with_incoming(&[1, 2, 3]));
    let mut buf = [9u8; 3];
    errno::set_errno(errno::Errno(libc::EWOULDBLOCK));
    assert_eq!(tls.recv_io_cb(&mut buf, read), -1);
    // The engine is told of a failure, not to wait.
    assert_eq!(errno::errno().0, libc::EIO);
    assert_eq!(buf, [9u8; 3]);
    assert_eq!(tls.send_io_cb(&[1], write), -1);
    assert_eq!(tls.poll_io(|_p: &mut Pipe, _w: WakeHandle| Poll::Ready(Ok(1))), -1);
    let (_, pipe) = tls.into_inner();
    assert_eq!(pipe, Pipe::with_incoming(&[1, 2, 3]));
}

#[test]
fn recv_adapter_hands_over_bytes_and_count() {
    let mut tls = open_stream(Pipe::with_incoming(&[10, 20, 30, 40]));
    let step = tls.with_io(CTX, |t: &mut TlsStream<Pipe>| {
        let mut buf = [0u8; 3];
        let status = t.recv_io_cb(&mut buf, read);
        Ok((status, buf))
    });
    assert_eq!(step, Poll::Ready(Ok((3, [10, 20, 30]))));
}

#[test]
fn send_adapter_hands_over_bytes_and_count() {
    let mut tls = open_stream(Pipe::default());
    let step = tls.with_io(CTX, |t: &mut TlsStream<Pipe>| Ok(t.send_io_cb(&[5, 6], write)));
    assert_eq!(step, Poll::Ready(Ok(2)));
    let (_, pipe) = tls.into_inner();
    assert_eq!(pipe.outgoing, vec![5, 6]);
    assert_eq!(pipe.polled_with, vec![CTX]);
}

#[test]
fn poll_read_suspends_and_resumes() {
    let mut pipe = Pipe::with_incoming(&[1, 2, 3]);
    pipe.ready = VecDeque::from(vec![false, true]);
    let mut tls = open_stream(pipe);

    let mut space = [0u8; 8];
    let mut buf = ReadBuf::new(&mut space);
    assert_eq!(tls.poll_read(CTX, &mut buf, engine_recv), Poll::Pending);
    assert_eq!(tls.as_ref().io(), IDLE);
    assert_eq!(buf.filled(), &[] as &[u8]);

    let again = WakeHandle { task: 8 };
    assert_eq!(tls.poll_read(again, &mut buf, engine_recv), Poll::Ready(Ok(())));
    assert_eq!(buf.filled(), &[1, 2, 3]);
    assert_eq!(buf.remaining(), 5);
    assert_eq!(tls.as_ref().io(), IDLE);

    let (_, pipe) = tls.into_inner();
    assert_eq!(pipe.polled_with, vec![CTX, again]);
}

#[test]
fn poll_read_appends_to_what_is_filled() {
    let mut tls = open_stream(Pipe::with_incoming(&[7, 8, 9, 10, 11]));
    let mut space = [0u8; 6];
    let mut buf = ReadBuf::new(&mut space);
    buf.put_slice(&[1, 2]);
    assert_eq!(tls.poll_read(CTX, &mut buf, engine_recv), Poll::Ready(Ok(())));
    // Room for four of the five.
    assert_eq!(buf.filled(), &[1, 2, 7, 8, 9, 10]);
    assert_eq!(buf.capacity(), 6);
    assert_eq!(buf.remaining(), 0);
    // A full buffer takes nothing more.
    assert_eq!(tls.poll_read(CTX, &mut buf, engine_recv), Poll::Ready(Ok(())));
    assert_eq!(buf.filled(), &[1, 2, 7, 8, 9, 10]);
}

#[test]
fn poll_read_gives_the_engine_all_the_room_initialised() {
    let mut tls = open_stream(Pipe::default());
    let mut space = [std::mem::MaybeUninit::<u8>::uninit(); 5];
    let mut buf = ReadBuf::uninit(&mut space);
    buf.put_slice(&[4]);
    let r = tls.poll_read(CTX, &mut buf, |_t: &mut TlsStream<Pipe>, room: &mut [u8]| {
        assert_eq!(room, &[0u8; 4]);
        room[0] = 0xaa;
        room[1] = 0xbb;
        room[2] = 0xcc;
        Ok(2)
    });
    assert_eq!(r, Poll::Ready(Ok(())));
    // Only what the engine counted is filled; the rest stays behind it.
    assert_eq!(buf.filled(), &[4, 0xaa, 0xbb]);
    assert_eq!(buf.initialized(), &[4, 0xaa, 0xbb, 0xcc, 0]);
    assert_eq!(buf.capacity(), 5);
}

#[test]
fn poll_read_refuses_a_count_beyond_the_room() {
    let mut tls = open_stream(Pipe::default());
    let mut space = [0u8; 3];
    let mut buf = ReadBuf::new(&mut space);
    let r = tls.poll_read(CTX, &mut buf, |_t: &mut TlsStream<Pipe>, _room: &mut [u8]| Ok(4));
    assert_eq!(r, Poll::Ready(Err(IoError::Session(Error::InvalidInput))));
    assert_eq!(buf.filled(), &[] as &[u8]);
    assert_eq!(tls.as_ref().io(), IDLE);
    // A count that just fits is taken.
    let r = tls.poll_read(CTX, &mut buf, |_t: &mut TlsStream<Pipe>, room: &mut [u8]| {
        room.copy_from_slice(&[1, 2, 3]);
        Ok(3)
    });
    assert_eq!(r, Poll::Ready(Ok(())));
    assert_eq!(buf.filled(), &[1, 2, 3]);
}

#[test]
fn poll_read_reports_a_broken_transport() {
    let mut pipe = Pipe::default();
    pipe.broken = true;
    let mut tls = open_stream(pipe);
    let mut space = [0u8; 8];
    let mut buf = ReadBuf::new(&mut space);
    assert_eq!(
        tls.poll_read(CTX, &mut buf, engine_recv),
        Poll::Ready(Err(IoError::Session(Error::Io)))
    );
    assert_eq!(buf.filled(), &[] as &[u8]);
    assert_eq!(tls.as_ref().io(), IDLE);
}

#[test]
fn poll_write_suspends_and_resumes() {
    let mut pipe = Pipe::default();
    pipe.ready = VecDeque::from(vec![false, true]);
    let mut tls = open_stream(pipe);
    assert_eq!(tls.poll_write(CTX, b"abc", engine_send), Poll::Pending);
    assert_eq!(tls.poll_write(CTX, b"abc", engine_send), Poll::Ready(Ok(3)));
    assert_eq!(tls.as_ref().io(), IDLE);
    let (_, pipe) = tls.into_inner();
    assert_eq!(pipe.outgoing, b"abc".to_vec());
}

#[test]
fn poll_flush_drives_the_transport_after_the_engine() {
    let mut tls = open_stream(Pipe::default());
    let r = tls.poll_flush(CTX, |_t: &mut TlsStream<Pipe>| Ok(()), flush);
    assert_eq!(r, Poll::Ready(Ok(())));
    assert_eq!(tls.as_ref().io(), IDLE);
    let (_, pipe) = tls.into_inner();
    assert_eq!(pipe.flushed, 1);
    assert_eq!(pipe.polled_with, vec![CTX]);
}

#[test]
fn poll_flush_waits_for_the_engine() {
    let mut tls = open_stream(Pipe::default());
    let r = tls.poll_flush(CTX, |_t: &mut TlsStream<Pipe>| Err(Error::Blocked), flush);
    assert_eq!(r, Poll::Pending);
    let r = tls.poll_flush(CTX, |_t: &mut TlsStream<Pipe>| Err(Error::Io), flush);
    assert_eq!(r, Poll::Ready(Err(IoError::Session(Error::Io))));
    assert_eq!(tls.as_ref().io(), IDLE);
    let (_, pipe) = tls.into_inner();
    assert_eq!(pipe.flushed, 0);
    assert!(pipe.polled_with.is_empty());
}

#[test]
fn poll_flush_passes_on_what_the_transport_says() {
    let mut pipe = Pipe::default();
    pipe.ready = VecDeque::from(vec![false]);
    let mut tls = open_stream(pipe);
    let r = tls.poll_flush(CTX, |_t: &mut TlsStream<Pipe>| Ok(()), flush);
    assert_eq!(r, Poll::Pending);

    let mut pipe = Pipe::default();
    pipe.broken = true;
    let mut tls = open_stream(pipe);
    let r = tls.poll_flush(CTX, |_t: &mut TlsStream<Pipe>| Ok(()), flush);
    assert_eq!(r, Poll::Ready(Err(IoError::Transport(104))));
}

#[test]
fn poll_shutdown_closes_the_transport_after_the_engine() {
    let mut tls = open_stream(Pipe::default());
    let r = tls.poll_shutdown(CTX, |_t: &mut TlsStream<Pipe>| Err(Error::Blocked), close);
    assert_eq!(r, Poll::Pending);
    let r = tls.poll_shutdown(CTX, |_t: &mut TlsStream<Pipe>| Ok(()), close);
    assert_eq!(r, Poll::Ready(Ok(())));
    assert_eq!(tls.as_ref().io(), IDLE);
    let (_, pipe) = tls.into_inner();
    assert!(pipe.closed);
    assert_eq!(pipe.polled_with, vec![CTX]);
}

#[test]
fn poll_shutdown_leaves_the_transport_open_when_the_engine_fails() {
    let mut tls = open_stream(Pipe::default());
    let r = tls.poll_shutdown(CTX, |_t: &mut TlsStream<Pipe>| Err(Error::Negotiation), close);
    assert_eq!(r, Poll::Ready(Err(IoError::Session(Error::Negotiation))));
    let (_, pipe) = tls.into_inner();
    assert!(!pipe.closed);
}

#[test]
fn open_drives_the_handshake_to_the_end() {
    let mut pipe = Pipe::with_incoming(&[41]);
    pipe.ready = VecDeque::from(vec![false, true, true]);
    let mut opening = TlsStream::open(Connection::new_server(), pipe, CTX, engine_negotiate);
    let mut polls = 1;
    let tls = loop {
        match opening {
            Opening::Ready(result) => break result.unwrap(),
            Opening::Pending(handshake) => {
                assert!(polls < 10);
                polls += 1;
                opening = handshake.advance(CTX, engine_negotiate);
            }
        }
    };
    assert_eq!(polls, 2);
    assert_eq!(tls.as_ref().io(), IDLE);
    let (conn, pipe) = tls.into_inner();
    assert_eq!(conn.mode(), Mode::Server);
    assert_eq!(pipe.outgoing, vec![42]);
}

#[test]
fn open_surfaces_the_error_of_a_failed_handshake() {
    // The peer says nothing: the engine gives up.
    let opening = TlsStream::open(Connection::new_client(), Pipe::default(), CTX, engine_negotiate);
    match opening {
        Opening::Ready(Err(e)) => assert_eq!(e, Error::Negotiation),
        other => panic!("unexpected: {:?}", other),
    }
}

#[test]
fn handshake_polled_by_hand_keeps_the_session() {
    let mut handshake = TlsHandshake::new(Connection::new_server(), Pipe::default());
    let step = handshake.poll(CTX, engine_negotiate);
    assert_eq!(step, Poll::Ready(Err(Error::Negotiation)));
    let (conn, _pipe) = handshake.into_inner();
    assert_eq!(conn.io(), IDLE);
    assert_eq!(conn.mode(), Mode::Server);
}

#[test]
fn acceptor_builds_a_server_session() {
    let config = Config::new(5);
    let acceptor = TlsAcceptor::new(config);
    let opening = acceptor.accept(Pipe::default(), CTX, |t: &mut TlsStream<Pipe>| {
        assert_eq!(t.as_ref().mode(), Mode::Server);
        assert_eq!(t.as_ref().io(), INSTALLED);
        Ok(())
    });
    match opening {
        Opening::Ready(Ok(tls)) => {
            assert_eq!(tls.as_ref().mode(), Mode::Server);
            assert_eq!(tls.as_ref().config(), Some(config));
            assert_eq!(tls.as_ref().io(), IDLE);
            assert!(tls.as_ref().server_name().is_none());
        }
        other => panic!("unexpected: {:?}", other),
    }
}

#[test]
fn connector_builds_a_client_session_for_the_named_server() {
    let config = Config::new(6);
    let connector = TlsConnector::new(config).clone();
    let opening = connector.connect("example.org", Pipe::default(), CTX, |t: &mut TlsStream<Pipe>| {
        assert_eq!(t.as_ref().server_name().map(|s| s.as_str()), Some("example.org"));
        Err(Error::Blocked)
    });
    match opening {
        Opening::Pending(handshake) => {
            let (conn, _) = handshake.into_inner();
            assert_eq!(conn.mode(), Mode::Client);
            assert_eq!(conn.config(), Some(config));
            assert_eq!(conn.server_name().map(|s| s.as_str()), Some("example.org"));
            assert_eq!(conn.io(), IDLE);
        }
        other => panic!("unexpected: {:?}", other),
    }
}
