//! The bridge that drives one session over one non-blocking transport.
//!
//! The engine is written as if reading and writing could block. The bridge
//! lets it run for one step at a time: it installs adapters and the wake
//! handle of the task that is being polled, calls one entry point of the
//! engine, and takes everything out again before it hands control back. An
//! adapter that finds the transport not ready tells the engine so, the engine
//! returns at once, and the step ends as a suspension.
//!
//! The entry points of the engine and the polls of the transport are closures
//! that the caller supplies; what the bridge does around them is verified for
//! whatever they return.

use vstd::prelude::*;
use tokio::io::ReadBuf;
use crate::buffer::advance;
use crate::buffer::capacity_of;
use crate::buffer::filled_bytes;
use crate::buffer::initialize_unfilled;
use crate::buffer::is_room_of;
use crate::connection::Builder;
use crate::connection::Connection;
use crate::connection::IoHooks;
use crate::connection::Session;
use crate::enums::CallbackResult;
use crate::enums::Mode;
use crate::enums::Poll;
use crate::enums::WakeHandle;
use crate::error::Error;
use crate::error::IoError;
use crate::sys::io_error_code;
use crate::sys::set_errno;
use crate::sys::would_block_code;

verus! {

/// A bridge as a mathematical value: the session and the transport.
pub struct Bridge<S> {
    pub session: Session,
    pub stream: S,
}

impl<S> Bridge<S> {
    /// The bridge with both adapters, their context and `ctx` installed into
    /// its session.
    pub open spec fn installed(self, ctx: WakeHandle) -> Bridge<S> {
        Bridge { session: self.session.with_io(IoHooks::installed(ctx)), stream: self.stream }
    }

    /// The bridge with nothing installed into its session.
    pub open spec fn uninstalled(self) -> Bridge<S> {
        Bridge { session: self.session.with_io(IoHooks::idle()), stream: self.stream }
    }
}

/// What a step means to the scheduler, given what the engine returned: a
/// result is the step's result, "would block" is a suspension, and any other
/// error ends the operation.
pub open spec fn driven<R>(outcome: Result<R, Error>) -> Poll<Result<R, Error>> {
    match outcome {
        Ok(value) => Poll::Ready(Ok(value)),
        Err(Error::Blocked) => Poll::Pending,
        Err(e) => Poll::Ready(Err(e)),
    }
}

/// A step's result for a caller that expects stream errors.
pub open spec fn as_io<R>(step: Poll<Result<R, Error>>) -> Poll<Result<R, IoError>> {
    match step {
        Poll::Ready(Ok(value)) => Poll::Ready(Ok(value)),
        Poll::Ready(Err(e)) => Poll::Ready(Err(IoError::Session(e))),
        Poll::Pending => Poll::Pending,
    }
}

/// How a read ends, given what the engine returned and the room it was
/// given: a count within the room completes the read, a count beyond it is a
/// malformed answer, and would-block and failure are what they are for any
/// step.
pub open spec fn read_step(outcome: Result<usize, Error>, room: nat) -> Poll<Result<(), IoError>> {
    match outcome {
        Ok(size) => if size <= room {
            Poll::Ready(Ok(()))
        } else {
            Poll::Ready(Err(IoError::Session(Error::InvalidInput)))
        },
        Err(e) => as_io(driven(Err::<(), Error>(e))),
    }
}

/// The bytes a read has added, given what the engine returned and what it
/// left in the room: as many as it counted, from the front of the room.
pub open spec fn received(outcome: Result<usize, Error>, room: Seq<u8>) -> Seq<u8> {
    match outcome {
        Ok(size) => if size <= room.len() {
            room.take(size as int)
        } else {
            Seq::empty()
        },
        Err(_) => Seq::empty(),
    }
}

/// What an adapter has to tell the engine of one poll of the transport.
///
/// The engine is told in two places: by the status word that the adapter
/// returns, and, where that word is failure, by the thread's error indicator,
/// which alone tells a transport that is not ready from one that failed.
#[derive(Clone, Copy, Debug, PartialEq, Eq, Structural)]
pub enum Signal {
    /// The transport gave or took this many bytes.
    Count(usize),
    /// The transport is not ready: the engine is to return at once, and the
    /// step ends as a suspension.
    WouldBlock,
    /// The transport failed: the operation is over.
    Failed,
}

/// What there is to tell of an outcome of the transport.
pub open spec fn signalled(outcome: Poll<Result<usize, IoError>>) -> Signal {
    match outcome {
        Poll::Ready(Ok(len)) => Signal::Count(len),
        Poll::Pending => Signal::WouldBlock,
        Poll::Ready(Err(_)) => Signal::Failed,
    }
}

/// The code that stands for a failed transport: the platform's code for
/// failed input or output, and, should that be the very code that says
/// "would block", another that is not.
pub open spec fn hard_failure(would_block: i32, failure: i32) -> i32 {
    if failure != would_block {
        failure
    } else if would_block != 0 {
        0
    } else {
        1
    }
}

impl Signal {
    /// The status word: the byte count, of which the word holds the low
    /// thirty-two bits, or minus one for failure.
    pub open spec fn status(self) -> i32 {
        match self {
            Signal::Count(len) => len as i32,
            _ => -1i32,
        }
    }

    /// What is written to the thread's error indicator, given the
    /// platform's codes for "would block" and for failed input or output:
    /// nothing with a count, the would-block code for a transport that is
    /// not ready, and for one that failed a code that is not the would-block
    /// code, so that a would-block left there from before cannot be read as
    /// this one's.
    pub open spec fn indicator(self, would_block: i32, failure: i32) -> Option<i32> {
        match self {
            Signal::Count(_) => None,
            Signal::WouldBlock => Some(would_block),
            Signal::Failed => Some(hard_failure(would_block, failure)),
        }
    }

    /// Computes [`Self::status`].
    pub fn into_status(self) -> (status: i32)
        ensures
            status == self.status(),
            self matches Signal::Count(len) ==> (len <= i32::MAX ==> status == len),
            !(self is Count) ==> status == CallbackResult::Failure.status(),
    {
        match self {
            Signal::Count(len) => {
                #[verifier::truncate]
                let status = len as i32;
                status
            },
            _ => CallbackResult::Failure.into_status(),
        }
    }

    /// Computes [`Self::indicator`].
    pub fn code(self, would_block: i32, failure: i32) -> (code: Option<i32>)
        ensures
            code == self.indicator(would_block, failure),
            self is Failed ==> code.is_some() && code.unwrap() != would_block,
    {
        match self {
            Signal::Count(_) => None,
            Signal::WouldBlock => Some(would_block),
            Signal::Failed => if failure != would_block {
                Some(failure)
            } else if would_block != 0 {
                Some(0)
            } else {
                Some(1)
            },
        }
    }

    /// Tells the engine: writes to the thread's error indicator the code
    /// that [`Self::code`] computes from the platform's codes, if it computes
    /// one, and returns the status word.
    pub fn tell(self) -> (status: i32)
        ensures
            status == self.status(),
    {
        match self.code(would_block_code(), io_error_code()) {
            Some(code) => set_errno(code),
            None => {},
        }
        self.into_status()
    }
}

/// Decides what there is to tell the engine of an outcome of the transport.
pub fn signal(outcome: &Poll<Result<usize, IoError>>) -> (signal: Signal)
    ensures
        signal == signalled(*outcome),
{
    match outcome {
        Poll::Ready(Ok(len)) => Signal::Count(*len),
        Poll::Pending => Signal::WouldBlock,
        Poll::Ready(Err(_)) => Signal::Failed,
    }
}

/// Turns what the engine returned into what the scheduler is told.
pub fn drive<R>(outcome: Result<R, Error>) -> (step: Poll<Result<R, Error>>)
    ensures
        step == driven(outcome),
{
    match outcome {
        Ok(value) => Poll::Ready(Ok(value)),
        Err(Error::Blocked) => Poll::Pending,
        Err(e) => Poll::Ready(Err(e)),
    }
}

/// Rewrites a step's session error as a stream error.
pub fn into_io<R>(step: Poll<Result<R, Error>>) -> (io: Poll<Result<R, IoError>>)
    ensures
        io == as_io(step),
{
    match step {
        Poll::Ready(Ok(value)) => Poll::Ready(Ok(value)),
        Poll::Ready(Err(e)) => Poll::Ready(Err(IoError::other(e))),
        Poll::Pending => Poll::Pending,
    }
}

/// One session and the transport it runs over, after the handshake.
#[derive(Debug)]
pub struct TlsStream<S> {
    conn: Connection,
    stream: S,
}

impl<S> View for TlsStream<S> {
    type V = Bridge<S>;

    closed spec fn view(&self) -> Bridge<S> {
        Bridge { session: self.conn@, stream: self.stream }
    }
}

impl<S> TlsStream<S> {
    /// Installs both adapters, their context and the wake handle.
    fn install(&mut self, ctx: WakeHandle)
        ensures
            final(self)@ == old(self)@.installed(ctx),
    {
        self.conn.set_receive_callback(true);
        self.conn.set_send_callback(true);
        self.conn.set_receive_context(true);
        self.conn.set_send_context(true);
        self.conn.set_waker(Some(ctx));
    }

    /// Takes out whatever is installed.
    fn uninstall(&mut self)
        ensures
            final(self)@ == old(self)@.uninstalled(),
    {
        self.conn.set_receive_callback(false);
        self.conn.set_send_callback(false);
        self.conn.set_receive_context(false);
        self.conn.set_send_context(false);
        self.conn.set_waker(None);
    }

    /// Runs one step of the engine.
    ///
    /// The adapters, their context and `ctx` are installed; `action`, the
    /// engine's entry point, is called once on the bridge in that state;
    /// whatever is installed afterwards is taken out, whether the engine
    /// succeeded or not; and what the engine returned is turned into a result,
    /// a suspension or an error by [`driven`].
    pub fn with_io<F, R>(&mut self, ctx: WakeHandle, action: F) -> (step: Poll<Result<R, Error>>)
        where F: FnOnce(&mut Self) -> Result<R, Error>
        requires
            forall|t: &mut Self|
                (*t)@ == old(self)@.installed(ctx) ==> #[trigger] action.requires((t,)),
        ensures
            final(self)@.session.io_idle(),
            exists|t: &mut Self, outcome: Result<R, Error>|
                (*t)@ == old(self)@.installed(ctx) && #[trigger] action.ensures((t,), outcome)
                    && final(self)@ == (*final(t))@.uninstalled() && step == driven(outcome),
    {
        self.install(ctx);
        let outcome = action(self);
        self.uninstall();
        drive(outcome)
    }

    /// Polls the transport on behalf of the engine and reports the outcome
    /// to it.
    ///
    /// `action` is called once, on the transport and with the wake handle
    /// that is installed at this moment, so that the transport wakes the task
    /// that is being driven. The session is not touched. What the transport
    /// returned is told to the engine as [`signal`] decides and
    /// [`Signal::tell`] does. Outside a step no wake handle is installed:
    /// then the transport is not polled and the engine is told of a failure.
    pub fn poll_io<F>(&mut self, action: F) -> (status: i32)
        where F: FnOnce(&mut S, WakeHandle) -> Poll<Result<usize, IoError>>
        requires
            forall|s: &mut S, w: WakeHandle|
                *s == old(self)@.stream && old(self)@.session.io.waker == Some(w)
                    ==> #[trigger] action.requires((s, w)),
        ensures
            old(self)@.session.io.waker.is_none() ==> final(self)@ == old(self)@ && status
                == CallbackResult::Failure.status(),
            old(self)@.session.io.waker matches Some(w) ==> exists|
                s: &mut S,
                outcome: Poll<Result<usize, IoError>>,
            |
                *s == old(self)@.stream && #[trigger] action.ensures((s, w), outcome)
                    && final(self)@ == (Bridge {
                    session: old(self)@.session,
                    stream: *final(s),
                }) && status == signalled(outcome).status(),
    {
        let waker = match self.conn.waker() {
            Some(w) => w,
            None => return Signal::Failed.tell(),
        };
        let outcome = action(&mut self.stream, waker);
        signal(&outcome).tell()
    }

    /// The adapter through which the engine receives: `read` polls the
    /// transport for bytes, which it puts at the front of `buf`, and returns
    /// their number.
    pub fn recv_io_cb<F>(&mut self, buf: &mut [u8], read: F) -> (status: i32)
        where F: FnOnce(&mut S, WakeHandle, &mut [u8]) -> Poll<Result<usize, IoError>>
        requires
            forall|s: &mut S, w: WakeHandle, b: &mut [u8]|
                *s == old(self)@.stream && old(self)@.session.io.waker == Some(w) && b@ == old(
                    buf
                )@ ==> #[trigger] read.requires((s, w, b)),
        ensures
            old(self)@.session.io.waker.is_none() ==> final(self)@ == old(self)@ && final(buf)@
                == old(buf)@ && status == CallbackResult::Failure.status(),
            old(self)@.session.io.waker matches Some(w) ==> exists|
                s: &mut S,
                b: &mut [u8],
                outcome: Poll<Result<usize, IoError>>,
            |
                *s == old(self)@.stream && b@ == old(buf)@ && #[trigger] read.ensures(
                    (s, w, b),
                    outcome,
                ) && final(self)@ == (Bridge { session: old(self)@.session, stream: *final(s) })
                    && final(buf)@ == final(b)@ && status == signalled(outcome).status(),
    {
        let waker = match self.conn.waker() {
            Some(w) => w,
            None => return Signal::Failed.tell(),
        };
        let outcome = read(&mut self.stream, waker, buf);
        signal(&outcome).tell()
    }

    /// The adapter through which the engine sends: `write` offers the bytes
    /// of `buf` to the transport and returns the number it took.
    pub fn send_io_cb<F>(&mut self, buf: &[u8], write: F) -> (status: i32)
        where F: FnOnce(&mut S, WakeHandle, &[u8]) -> Poll<Result<usize, IoError>>
        requires
            forall|s: &mut S, w: WakeHandle|
                *s == old(self)@.stream && old(self)@.session.io.waker == Some(w)
                    ==> #[trigger] write.requires((s, w, buf)),
        ensures
            old(self)@.session.io.waker.is_none() ==> final(self)@ == old(self)@ && status
                == CallbackResult::Failure.status(),
            old(self)@.session.io.waker matches Some(w) ==> exists|
                s: &mut S,
                outcome: Poll<Result<usize, IoError>>,
            |
                *s == old(self)@.stream && #[trigger] write.ensures((s, w, buf), outcome)
                    && final(self)@ == (Bridge {
                    session: old(self)@.session,
                    stream: *final(s),
                }) && status == signalled(outcome).status(),
    {
        let waker = match self.conn.waker() {
            Some(w) => w,
            None => return Signal::Failed.tell(),
        };
        let outcome = write(&mut self.stream, waker, buf);
        signal(&outcome).tell()
    }

    /// Drives the transport's own flush or close once the engine has
    /// finished its part, and passes on a suspension or an error of the
    /// engine without touching the transport.
    fn finish<G>(&mut self, ctx: WakeHandle, step: Poll<Result<(), Error>>, transport: G) -> (r:
        Poll<Result<(), IoError>>)
        where G: FnOnce(&mut S, WakeHandle) -> Poll<Result<(), IoError>>
        requires
            forall|s: &mut S| #[trigger] transport.requires((s, ctx)),
        ensures
            step == Poll::Ready(Ok::<(), Error>(())) ==> exists|s: &mut S|
                *s == old(self)@.stream && #[trigger] transport.ensures((s, ctx), r)
                    && final(self)@ == (Bridge {
                    session: old(self)@.session,
                    stream: *final(s),
                }),
            step != Poll::Ready(Ok::<(), Error>(())) ==> final(self)@ == old(self)@ && r == as_io(
                step,
            ),
    {
        match step {
            Poll::Ready(Ok(())) => transport(&mut self.stream, ctx),
            other => into_io(other),
        }
    }

    /// Lets the engine receive into the room of `buf` for one step.
    ///
    /// This is the protocol of [`Self::with_io`] around `recv`, the engine's
    /// entry point for receiving, which puts plaintext at the front of the
    /// slice it is given and returns the number of bytes. The slice is all
    /// the room that `buf` has left, and what the engine has put there
    /// becomes part of the filled bytes of `buf`. An engine that claims more
    /// bytes than there was room for is in error, and nothing is added: only
    /// a read that succeeds adds to the filled bytes.
    pub fn poll_read<F>(&mut self, ctx: WakeHandle, buf: &mut ReadBuf<'_>, recv: F) -> (r: Poll<
        Result<(), IoError>,
    >)
        where F: FnOnce(&mut Self, &mut [u8]) -> Result<usize, Error>
        requires
            forall|t: &mut Self, room: &mut [u8]|
                (*t)@ == old(self)@.installed(ctx) && is_room_of(room@, old(buf))
                    ==> #[trigger] recv.requires((t, room)),
        ensures
            final(self)@.session.io_idle(),
            capacity_of(final(buf)) == capacity_of(old(buf)),
            filled_bytes(old(buf)).is_prefix_of(filled_bytes(final(buf))),
            filled_bytes(final(buf)).len() <= capacity_of(final(buf)),
            !(r matches Poll::Ready(Ok(_))) ==> filled_bytes(final(buf)) == filled_bytes(old(buf)),
            exists|t: &mut Self, room: &mut [u8], outcome: Result<usize, Error>|
                (*t)@ == old(self)@.installed(ctx) && is_room_of(room@, old(buf))
                    && #[trigger] recv.ensures((t, room), outcome)
                    && final(room)@.len() == room@.len()
                    && final(self)@ == (*final(t))@.uninstalled()
                    && r == read_step(outcome, room@.len())
                    && filled_bytes(final(buf)) == filled_bytes(old(buf)) + received(
                    outcome,
                    final(room)@,
                ),
    {
        self.install(ctx);
        let room = initialize_unfilled(buf);
        let len = room.len();
        let outcome = recv(self, room);
        self.uninstall();
        match outcome {
            Ok(size) => {
                if size <= len {
                    advance(buf, size);
                    Poll::Ready(Ok(()))
                } else {
                    proof {
                        assert(filled_bytes(buf) + Seq::<u8>::empty() =~= filled_bytes(buf));
                    }
                    Poll::Ready(Err(IoError::other(Error::InvalidInput)))
                }
            },
            Err(e) => {
                proof {
                    assert(filled_bytes(buf) + Seq::<u8>::empty() =~= filled_bytes(buf));
                }
                into_io(drive(Err(e)))
            },
        }
    }

    /// Lets the engine send the bytes of `buf` for one step.
    ///
    /// This is [`Self::with_io`] around `send`, the engine's entry point for
    /// sending, which returns the number of bytes it took.
    pub fn poll_write<F>(&mut self, ctx: WakeHandle, buf: &[u8], send: F) -> (r: Poll<
        Result<usize, IoError>,
    >)
        where F: FnOnce(&mut Self, &[u8]) -> Result<usize, Error>
        requires
            forall|t: &mut Self|
                (*t)@ == old(self)@.installed(ctx) ==> #[trigger] send.requires((t, buf)),
        ensures
            final(self)@.session.io_idle(),
            exists|t: &mut Self, outcome: Result<usize, Error>|
                (*t)@ == old(self)@.installed(ctx) && #[trigger] send.ensures((t, buf), outcome)
                    && final(self)@ == (*final(t))@.uninstalled() && r == as_io(driven(outcome)),
    {
        self.install(ctx);
        let outcome = send(self, buf);
        self.uninstall();
        into_io(drive(outcome))
    }

    /// Flushes for one step: first the engine's records, through `flush`
    /// inside [`Self::with_io`], and, once the engine reports that it is done,
    /// the transport's own buffer, through `transport`.
    ///
    /// A suspension or an error of the engine is returned as it is, and the
    /// transport is left alone.
    pub fn poll_flush<F, G>(&mut self, ctx: WakeHandle, flush: F, transport: G) -> (r: Poll<
        Result<(), IoError>,
    >)
        where
            F: FnOnce(&mut Self) -> Result<(), Error>,
            G: FnOnce(&mut S, WakeHandle) -> Poll<Result<(), IoError>>,
        requires
            forall|t: &mut Self|
                (*t)@ == old(self)@.installed(ctx) ==> #[trigger] flush.requires((t,)),
            forall|s: &mut S| #[trigger] transport.requires((s, ctx)),
        ensures
            final(self)@.session.io_idle(),
            exists|t: &mut Self, outcome: Result<(), Error>|
                (*t)@ == old(self)@.installed(ctx) && #[trigger] flush.ensures((t,), outcome) && (
                outcome is Ok ==> exists|s: &mut S|
                    *s == (*final(t))@.stream && #[trigger] transport.ensures((s, ctx), r)
                        && final(self)@ == (Bridge {
                        session: (*final(t))@.uninstalled().session,
                        stream: *final(s),
                    })) && (outcome is Err ==> final(self)@ == (*final(t))@.uninstalled() && r
                    == as_io(driven(outcome))),
    {
        let step = self.with_io(ctx, flush);
        self.finish(ctx, step, transport)
    }

    /// Closes for one step: first the engine's side of the session, through
    /// `shutdown` inside [`Self::with_io`], and, once the engine reports that
    /// it is done, the transport, through `transport`.
    ///
    /// A suspension or an error of the engine is returned as it is, and the
    /// transport is left alone.
    pub fn poll_shutdown<F, G>(&mut self, ctx: WakeHandle, shutdown: F, transport: G) -> (r: Poll<
        Result<(), IoError>,
    >)
        where
            F: FnOnce(&mut Self) -> Result<(), Error>,
            G: FnOnce(&mut S, WakeHandle) -> Poll<Result<(), IoError>>,
        requires
            forall|t: &mut Self|
                (*t)@ == old(self)@.installed(ctx) ==> #[trigger] shutdown.requires((t,)),
            forall|s: &mut S| #[trigger] transport.requires((s, ctx)),
        ensures
            final(self)@.session.io_idle(),
            exists|t: &mut Self, outcome: Result<(), Error>|
                (*t)@ == old(self)@.installed(ctx) && #[trigger] shutdown.ensures((t,), outcome)
                    && (outcome is Ok ==> exists|s: &mut S|
                    *s == (*final(t))@.stream && #[trigger] transport.ensures((s, ctx), r)
                        && final(self)@ == (Bridge {
                        session: (*final(t))@.uninstalled().session,
                        stream: *final(s),
                    })) && (outcome is Err ==> final(self)@ == (*final(t))@.uninstalled() && r
                    == as_io(driven(outcome))),
    {
        let step = self.with_io(ctx, shutdown);
        self.finish(ctx, step, transport)
    }

    /// Begins to open a bridge: wraps the session and the transport and
    /// drives the handshake for a first step.
    ///
    /// `negotiate` is the engine's entry point for the handshake. The bridge
    /// is handed out only once the handshake has succeeded; a handshake that
    /// fails takes the bridge with it and leaves the engine's error; one that
    /// has to wait is handed back to be driven again.
    pub fn open<F>(conn: Connection, stream: S, ctx: WakeHandle, negotiate: F) -> (r: Opening<S>)
        where F: FnOnce(&mut Self) -> Result<(), Error>
        requires
            forall|t: &mut Self|
                (*t)@ == (Bridge { session: conn@, stream }).installed(ctx)
                    ==> #[trigger] negotiate.requires((t,)),
        ensures
            exists|t: &mut Self, outcome: Result<(), Error>|
                (*t)@ == (Bridge { session: conn@, stream }).installed(ctx)
                    && #[trigger] negotiate.ensures((t,), outcome) && opened(
                    (*final(t))@.uninstalled(),
                    outcome,
                    r,
                ),
    {
        TlsHandshake::new(conn, stream).advance(ctx, negotiate)
    }

    /// Gives up the bridge and hands back its session and its transport, so
    /// that the session can be returned to where it came from.
    pub fn into_inner(self) -> (parts: (Connection, S))
        ensures
            parts.0@ == self@.session,
            parts.1 == self@.stream,
    {
        (self.conn, self.stream)
    }

    /// The session of this bridge.
    pub fn as_ref(&self) -> (conn: &Connection)
        ensures
            conn@ == self@.session,
    {
        &self.conn
    }

    /// The session of this bridge, for the engine to record what it learns.
    pub fn as_mut(&mut self) -> (conn: &mut Connection)
        ensures
            conn@ == old(self)@.session,
            final(self)@ == (Bridge { session: final(conn)@, stream: old(self)@.stream }),
    {
        &mut self.conn
    }
}

/// A bridge whose handshake is still under way.
#[derive(Debug)]
pub struct TlsHandshake<S> {
    tls: TlsStream<S>,
}

impl<S> View for TlsHandshake<S> {
    type V = Bridge<S>;

    closed spec fn view(&self) -> Bridge<S> {
        self.tls@
    }
}

/// How an attempt to open a bridge stands after one step.
#[derive(Debug)]
pub enum Opening<S> {
    /// The handshake is over: here is the bridge, or the error that ended it.
    Ready(Result<TlsStream<S>, Error>),
    /// The handshake has to wait; drive it again when the task is woken.
    Pending(TlsHandshake<S>),
}

/// Whether `r` is what one step of a handshake leaves, given the bridge
/// `after` the step and what the engine returned: the bridge itself if the
/// engine is done, the handshake to be driven again if it would block, and
/// otherwise its error alone.
pub open spec fn opened<S>(after: Bridge<S>, outcome: Result<(), Error>, r: Opening<S>) -> bool {
    match outcome {
        Ok(()) => r matches Opening::Ready(Ok(tls)) && tls@ == after,
        Err(Error::Blocked) => r matches Opening::Pending(handshake) && handshake@ == after,
        Err(e) => r matches Opening::Ready(Err(failure)) && failure == e,
    }
}

impl<S> TlsHandshake<S> {
    /// Wraps a session and a transport for a handshake that the caller
    /// drives step by step with [`Self::poll`].
    pub fn new(conn: Connection, stream: S) -> (handshake: Self)
        ensures
            handshake@ == (Bridge { session: conn@, stream }),
    {
        TlsHandshake { tls: TlsStream { conn, stream } }
    }

    /// Gives up the handshake and hands back the session and the transport,
    /// so that a session whose handshake failed can still be returned to
    /// where it came from.
    pub fn into_inner(self) -> (parts: (Connection, S))
        ensures
            parts.0@ == self@.session,
            parts.1 == self@.stream,
    {
        self.tls.into_inner()
    }

    /// Drives the handshake for one step: [`TlsStream::with_io`] around
    /// `negotiate`, the engine's entry point for the handshake.
    pub fn poll<F>(&mut self, ctx: WakeHandle, negotiate: F) -> (step: Poll<Result<(), Error>>)
        where F: FnOnce(&mut TlsStream<S>) -> Result<(), Error>
        requires
            forall|t: &mut TlsStream<S>|
                (*t)@ == old(self)@.installed(ctx) ==> #[trigger] negotiate.requires((t,)),
        ensures
            final(self)@.session.io_idle(),
            exists|t: &mut TlsStream<S>, outcome: Result<(), Error>|
                (*t)@ == old(self)@.installed(ctx) && #[trigger] negotiate.ensures((t,), outcome)
                    && final(self)@ == (*final(t))@.uninstalled() && step == driven(outcome),
    {
        self.tls.with_io(ctx, negotiate)
    }

    /// Drives the handshake for one step and says how the opening stands.
    pub fn advance<F>(self, ctx: WakeHandle, negotiate: F) -> (r: Opening<S>)
        where F: FnOnce(&mut TlsStream<S>) -> Result<(), Error>
        requires
            forall|t: &mut TlsStream<S>|
                (*t)@ == self@.installed(ctx) ==> #[trigger] negotiate.requires((t,)),
        ensures
            exists|t: &mut TlsStream<S>, outcome: Result<(), Error>|
                (*t)@ == self@.installed(ctx) && #[trigger] negotiate.ensures((t,), outcome)
                    && opened((*final(t))@.uninstalled(), outcome, r),
    {
        let mut handshake = self;
        match handshake.poll(ctx, negotiate) {
            Poll::Ready(Ok(())) => Opening::Ready(Ok(handshake.tls)),
            Poll::Ready(Err(e)) => Opening::Ready(Err(e)),
            Poll::Pending => Opening::Pending(handshake),
        }
    }
}

/// Opens bridges for the server's end of a connection.
#[derive(Clone)]
pub struct TlsAcceptor<B: Builder = crate::config::Config> {
    builder: B,
}

impl<B: Builder> TlsAcceptor<B> {
    pub closed spec fn builder(&self) -> B {
        self.builder
    }

    pub fn new(builder: B) -> (acceptor: Self)
        ensures
            acceptor.builder() == builder,
    {
        TlsAcceptor { builder }
    }

    /// Builds a session for the server's end and begins to open a bridge
    /// over `stream` with it. If the builder declines, its error is the
    /// result and the engine is not called.
    pub fn accept<S, F>(&self, stream: S, ctx: WakeHandle, negotiate: F) -> (r: Opening<S>)
        where F: FnOnce(&mut TlsStream<S>) -> Result<(), Error>
        requires
            forall|t: &mut TlsStream<S>|
                (*t)@.stream == stream && (*t)@.session.io == IoHooks::installed(ctx)
                    ==> #[trigger] negotiate.requires((t,)),
        ensures
            (r matches Opening::Ready(Err(e)) && self.builder().declines(Mode::Server, e))
                || exists|built: Session| #[trigger]
                self.builder().builds(Mode::Server, built) && exists|
                    t: &mut TlsStream<S>,
                    outcome: Result<(), Error>,
                |
                    (*t)@ == (Bridge { session: built, stream }).installed(ctx)
                        && #[trigger] negotiate.ensures((t,), outcome) && opened(
                        (*final(t))@.uninstalled(),
                        outcome,
                        r,
                    ),
    {
        match self.builder.build_connection(Mode::Server) {
            Ok(conn) => {
                proof {
                    assert(self.builder().builds(Mode::Server, conn@));
                }
                TlsStream::open(conn, stream, ctx, negotiate)
            },
            Err(e) => Opening::Ready(Err(e)),
        }
    }
}

/// Opens bridges for the client's end of a connection.
#[derive(Clone)]
pub struct TlsConnector<B: Builder = crate::config::Config> {
    builder: B,
}

impl<B: Builder> TlsConnector<B> {
    pub closed spec fn builder(&self) -> B {
        self.builder
    }

    pub fn new(builder: B) -> (connector: Self)
        ensures
            connector.builder() == builder,
    {
        TlsConnector { builder }
    }

    /// Builds a session for the client's end, names the server it wants to
    /// reach, and begins to open a bridge over `stream` with it. If the
    /// builder declines, or builds a session that cannot take the name, that
    /// error is the result and the engine is not called.
    pub fn connect<S, F>(&self, domain: &str, stream: S, ctx: WakeHandle, negotiate: F) -> (r:
        Opening<S>)
        where F: FnOnce(&mut TlsStream<S>) -> Result<(), Error>
        requires
            forall|t: &mut TlsStream<S>|
                (*t)@.session.server_name == Some(domain@) && (*t)@.stream == stream && (
                *t)@.session.io == IoHooks::installed(ctx) ==> #[trigger] negotiate.requires((t,)),
        ensures
            (r matches Opening::Ready(Err(e)) && self.builder().declines(Mode::Client, e)) || (
            r matches Opening::Ready(Err(Error::Unusable)) && exists|built: Session| #[trigger]
                self.builder().builds(Mode::Client, built) && !built.usable) || exists|
                built: Session,
            | #[trigger]
                self.builder().builds(Mode::Client, built) && built.usable && exists|
                    t: &mut TlsStream<S>,
                    outcome: Result<(), Error>,
                |
                    (*t)@ == (Bridge {
                        session: Session { server_name: Some(domain@), ..built },
                        stream,
                    }).installed(ctx) && #[trigger] negotiate.ensures((t,), outcome) && opened(
                        (*final(t))@.uninstalled(),
                        outcome,
                        r,
                    ),
    {
        let mut conn = match self.builder.build_connection(Mode::Client) {
            Ok(conn) => conn,
            Err(e) => return Opening::Ready(Err(e)),
        };
        proof {
            assert(self.builder().builds(Mode::Client, conn@));
        }
        match conn.set_server_name(domain) {
            Ok(()) => TlsStream::open(conn, stream, ctx, negotiate),
            Err(e) => Opening::Ready(Err(e)),
        }
    }
}

} // verus!
