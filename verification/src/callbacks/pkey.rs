//! Private-key operations that the engine hands out to an external signer.
//!
//! An operation is created when the engine raises it, delivered to a handler,
//! and then either completed by setting its output or abandoned. Setting the
//! output consumes the operation, so it happens at most once.

use vstd::prelude::*;
use crate::connection::Connection;
use crate::connection::KeyExchangeView;
use crate::connection::Session;
use crate::enums::HashAlgorithm;
use crate::enums::Mode;
use crate::enums::Poll;
use crate::enums::SignatureAlgorithm;
use crate::enums::WakeHandle;
use crate::error::Error;

verus! {

/// The engine's word for a decryption.
pub const KIND_DECRYPT: u32 = 0;

/// The engine's word for a signature.
pub const KIND_SIGN: u32 = 1;

/// What the signer is asked to do.
#[non_exhaustive]
#[derive(Clone, Copy, Debug, PartialEq, Eq, Structural)]
pub enum OperationType {
    Decrypt,
    Sign(SignatureAlgorithm, HashAlgorithm),
}

/// One request as the engine raises it: its handle, the engine's word for
/// its kind, and the bytes to work on.
#[derive(Debug)]
pub struct RawOperation {
    pub handle: usize,
    pub kind: u32,
    pub input: Vec<u8>,
}

/// An operation as a mathematical value.
pub struct Operation {
    pub handle: usize,
    pub kind: OperationType,
    pub input: Seq<u8>,
}

/// One private-key operation, owned by whoever has to answer it.
#[derive(Debug)]
pub struct PrivateKeyOperation {
    raw: usize,
    kind: OperationType,
    input: Vec<u8>,
}

impl View for PrivateKeyOperation {
    type V = Operation;

    closed spec fn view(&self) -> Operation {
        Operation { handle: self.raw, kind: self.kind, input: self.input@ }
    }
}

/// The signature algorithm that counts for a session in this mode: a client
/// signs with what it chose for its own certificate, a server with what the
/// connection settled on.
pub open spec fn signing_signature(session: Session) -> Option<SignatureAlgorithm> {
    match session.mode {
        Mode::Client => session.selection.client_signature,
        Mode::Server => session.selection.signature,
    }
}

/// The hash algorithm that counts for a session in this mode.
pub open spec fn signing_hash(session: Session) -> Option<HashAlgorithm> {
    match session.mode {
        Mode::Client => session.selection.client_hash,
        Mode::Server => session.selection.hash,
    }
}

/// The kind of the operation that the engine's word stands for on this
/// session, if it stands for one.
pub open spec fn resolve_kind(session: Session, raw_kind: u32) -> Option<OperationType> {
    if raw_kind == KIND_SIGN {
        match (signing_signature(session), signing_hash(session)) {
            (Some(sig), Some(hash)) => Some(OperationType::Sign(sig, hash)),
            _ => None,
        }
    } else if raw_kind == KIND_DECRYPT {
        Some(OperationType::Decrypt)
    } else {
        None
    }
}

/// The operation that a raw request amounts to on this session, if it is
/// well formed: a known kind, for a signature both algorithms settled, a
/// handle that is not null, and an input whose length the engine can count.
pub open spec fn resolve(session: Session, raw: RawOperation) -> Option<Operation> {
    match resolve_kind(session, raw.kind) {
        Some(kind) => if raw.handle != 0 && raw.input@.len() <= u32::MAX {
            Some(Operation { handle: raw.handle, kind, input: raw.input@ })
        } else {
            None
        },
        None => None,
    }
}

/// A vector with the bytes of `bytes`.
fn copy_of(bytes: &[u8]) -> (v: Vec<u8>)
    ensures
        v@ == bytes@,
{
    let mut v: Vec<u8> = Vec::new();
    let mut i: usize = 0;
    while i < bytes.len()
        invariant
            i <= bytes@.len(),
            v@ == bytes@.subrange(0, i as int),
        decreases bytes@.len() - i,
    {
        v.push(bytes[i]);
        i += 1;
    }
    v
}

impl PrivateKeyOperation {
    #[verifier::type_invariant]
    spec fn well_formed(&self) -> bool {
        self.raw != 0 && self.input@.len() <= u32::MAX
    }

    /// Makes an operation of what the engine raised on `conn`.
    pub fn try_from_cb(conn: &Connection, raw: RawOperation) -> (r: Result<Self, Error>)
        ensures
            match resolve(conn@, raw) {
                Some(op) => r matches Ok(made) && made@ == op,
                None => r == Err::<Self, Error>(Error::InvalidInput),
            },
    {
        let kind = if raw.kind == KIND_SIGN {
            let sig_alg = match conn.mode() {
                Mode::Client => match conn.selected_client_signature_algorithm()? {
                    Some(alg) => alg,
                    None => return Err(Error::InvalidInput),
                },
                Mode::Server => conn.selected_signature_algorithm()?,
            };
            let hash_alg = match conn.mode() {
                Mode::Client => match conn.selected_client_hash_algorithm()? {
                    Some(alg) => alg,
                    None => return Err(Error::InvalidInput),
                },
                Mode::Server => conn.selected_hash_algorithm()?,
            };
            OperationType::Sign(sig_alg, hash_alg)
        } else if raw.kind == KIND_DECRYPT {
            OperationType::Decrypt
        } else {
            return Err(Error::InvalidInput);
        };
        if raw.handle == 0 || raw.input.len() > u32::MAX as usize {
            return Err(Error::InvalidInput);
        }
        Ok(PrivateKeyOperation { raw: raw.handle, kind, input: raw.input })
    }

    /// Do we need to sign or decrypt with the private key?
    pub fn kind(&self) -> (r: Result<&OperationType, Error>)
        ensures
            r == Ok::<&OperationType, Error>(&self@.kind),
    {
        Ok(&self.kind)
    }

    /// The number of bytes that [`Self::input`] copies.
    pub fn input_size(&self) -> (r: Result<usize, Error>)
        ensures
            r == Ok::<usize, Error>(self@.input.len() as usize),
            self@.input.len() <= u32::MAX,
    {
        proof {
            use_type_invariant(self);
        }
        Ok(self.input.len())
    }

    /// Copies the input of the operation into `buf`, which must have exactly
    /// the size that [`Self::input_size`] reports. For a signature the input
    /// is the digest, already computed.
    pub fn input(&self, buf: &mut [u8]) -> (r: Result<(), Error>)
        ensures
            old(buf)@.len() == self@.input.len() ==> r is Ok && final(buf)@ == self@.input,
            old(buf)@.len() != self@.input.len() ==> r == Err::<(), Error>(Error::InvalidInput)
                && final(buf)@ == old(buf)@,
    {
        let n = self.input.len();
        if buf.len() != n {
            return Err(Error::InvalidInput);
        }
        let mut i: usize = 0;
        while i < n
            invariant
                n == self.input@.len(),
                buf@.len() == n,
                i <= n,
                forall|j: int| 0 <= j < i ==> buf@[j] == self.input@[j],
            decreases n - i,
        {
            buf[i] = self.input[i];
            i += 1;
        }
        Ok(())
    }

    /// Whether the engine takes `output` from this operation on `session`:
    /// its length must be one the engine can count, and the session must be
    /// waiting for this very operation.
    pub open spec fn accepts(self, session: Session, output: Seq<u8>) -> bool {
        output.len() <= u32::MAX && session.key_exchange == (KeyExchangeView::Awaiting {
            handle: self@.handle,
        })
    }

    /// Sets the output of the operation and tells the engine to go on.
    /// Whether the engine takes the output or not, the operation is used up.
    pub fn set_output(self, conn: &mut Connection, buf: &[u8]) -> (r: Result<(), Error>)
        ensures
            self.accepts(old(conn)@, buf@) ==> r is Ok && final(conn)@ == (Session {
                key_exchange: KeyExchangeView::Answered { output: buf@ },
                ..old(conn)@
            }),
            !self.accepts(old(conn)@, buf@) ==> r == Err::<(), Error>(Error::InvalidInput)
                && final(conn)@ == old(conn)@,
    {
        if buf.len() > u32::MAX as usize {
            return Err(Error::InvalidInput);
        }
        let output = copy_of(buf);
        conn.apply_key_output(self.raw, output)
    }

    /// The engine's handle of this operation. It is never null.
    pub fn as_ptr(&self) -> (handle: usize)
        ensures
            handle == self@.handle,
            handle != 0,
    {
        proof {
            use_type_invariant(self);
        }
        self.raw
    }
}

/// The rest of a handler's work, to be driven later.
///
/// Each call of `poll` is one cycle of the cooperative contract: the future
/// either reports that it is not done, having arranged for `ctx` to be woken,
/// or it finishes. One that finishes well must have set the output of its
/// operation before.
pub trait ConnectionFuture: 'static + Send + Sync {
    fn poll(&mut self, connection: &mut Connection, ctx: WakeHandle) -> Poll<Result<(), Error>>;
}

/// The handler of private-key operations that the caller supplies.
///
/// It answers an operation at once and returns no continuation, or it returns
/// the continuation that will answer it. It may rely on being given a session
/// that waits for the very operation it is handed.
pub trait PrivateKeyCallback: 'static + Send + Sync {
    fn handle_operation(
        &self,
        connection: &mut Connection,
        operation: PrivateKeyOperation,
    ) -> Result<Option<Box<dyn ConnectionFuture>>, Error>
        requires
            old(connection)@.key_exchange == (KeyExchangeView::Awaiting {
                handle: operation@.handle,
            }),
    ;
}

/// What a handler's answer means for the negotiation: its error is the
/// negotiation's error; its continuation is kept to be driven; and an answer
/// without continuation stands only if the output has reached the engine,
/// for otherwise the operation was given up.
pub open spec fn settled(
    session: Session,
    answer: Result<Option<Box<dyn ConnectionFuture>>, Error>,
) -> Result<Option<Box<dyn ConnectionFuture>>, Error> {
    match answer {
        Ok(None) => if session.key_exchange is Answered {
            Ok(None)
        } else {
            Err(Error::Abandoned)
        },
        other => other,
    }
}

/// What one cycle of a continuation means for the negotiation.
pub open spec fn settled_poll(session: Session, step: Poll<Result<(), Error>>) -> Poll<
    Result<(), Error>,
> {
    match step {
        Poll::Ready(Ok(())) => if session.key_exchange is Answered {
            Poll::Ready(Ok(()))
        } else {
            Poll::Ready(Err(Error::Abandoned))
        },
        other => other,
    }
}

/// Judges the answer of a handler against the session it was given.
pub fn settle(conn: &Connection, answer: Result<Option<Box<dyn ConnectionFuture>>, Error>) -> (r:
    Result<Option<Box<dyn ConnectionFuture>>, Error>)
    ensures
        r == settled(conn@, answer),
{
    match answer {
        Ok(None) => match conn.key_exchange() {
            crate::connection::KeyExchange::Answered { .. } => Ok(None),
            _ => Err(Error::Abandoned),
        },
        other => other,
    }
}

/// Judges one cycle of a continuation against the session it was given.
pub fn settle_poll(conn: &Connection, step: Poll<Result<(), Error>>) -> (r: Poll<
    Result<(), Error>,
>)
    ensures
        r == settled_poll(conn@, step),
{
    match step {
        Poll::Ready(Ok(())) => match conn.key_exchange() {
            crate::connection::KeyExchange::Answered { .. } => Poll::Ready(Ok(())),
            _ => Poll::Ready(Err(Error::Abandoned)),
        },
        other => other,
    }
}

/// Whether a raw request can be delivered on this session: it is well
/// formed, and no other operation is in flight.
pub open spec fn deliverable(session: Session, raw: RawOperation) -> bool {
    resolve(session, raw).is_some() && session.key_exchange is Idle
}

/// Takes in what the engine raised on `conn`: makes the operation of it and
/// marks the session as waiting for it.
///
/// A request that cannot be delivered is refused, and the session stays as
/// it was.
pub fn accept_request(conn: &mut Connection, raw: RawOperation) -> (r: Result<
    PrivateKeyOperation,
    Error,
>)
    ensures
        deliverable(old(conn)@, raw) ==> (r matches Ok(operation) && Some(operation@) == resolve(
            old(conn)@,
            raw,
        ) && final(conn)@ == (Session {
            key_exchange: KeyExchangeView::Awaiting { handle: raw.handle },
            ..old(conn)@
        })),
        !deliverable(old(conn)@, raw) ==> r == Err::<PrivateKeyOperation, Error>(
            Error::InvalidInput,
        ) && final(conn)@ == old(conn)@,
{
    let operation = PrivateKeyOperation::try_from_cb(conn, raw)?;
    conn.await_key_operation(operation.as_ptr())?;
    Ok(operation)
}

/// Delivers what the engine raised on `conn` to the handler.
///
/// A request that cannot be delivered is refused without the handler being
/// called, and the session stays as it was. Otherwise the session is marked
/// as waiting for this operation, the handler is called once, and its answer
/// is judged by [`settle`]: an answer without continuation is returned only
/// if the output has reached the engine.
pub fn deliver<H: PrivateKeyCallback>(handler: &H, conn: &mut Connection, raw: RawOperation) -> (r:
    Result<Option<Box<dyn ConnectionFuture>>, Error>)
    ensures
        !deliverable(old(conn)@, raw) ==> r == Err::<Option<Box<dyn ConnectionFuture>>, Error>(
            Error::InvalidInput,
        ) && final(conn)@ == old(conn)@,
        deliverable(old(conn)@, raw) ==> exists|
            answer: Result<Option<Box<dyn ConnectionFuture>>, Error>,
        |
            r == #[trigger] settled(final(conn)@, answer),
        r matches Ok(None) ==> final(conn)@.key_exchange is Answered,
{
    let operation = accept_request(conn, raw)?;
    let answer = handler.handle_operation(conn, operation);
    settle(conn, answer)
}

/// An error of the handler is the error of the handshake, unchanged,
/// whether the handler itself returns it or its continuation does, and
/// whatever state the session is in.
pub proof fn lemma_handler_error_is_the_outcome(session: Session, e: Error)
    ensures
        settled(session, Err::<Option<Box<dyn ConnectionFuture>>, Error>(e)) == Err::<
            Option<Box<dyn ConnectionFuture>>,
            Error,
        >(e),
        settled_poll(session, Poll::Ready(Err::<(), Error>(e))) == Poll::Ready(
            Err::<(), Error>(e),
        ),
{
}

/// While the operation of a session is in flight, delivered and not yet
/// answered and taken by the engine, no request can be delivered on that
/// session: the handler is reached once for each operation the engine
/// raises.
pub proof fn lemma_one_delivery_at_a_time(session: Session, raw: RawOperation)
    requires
        !(session.key_exchange is Idle),
    ensures
        !deliverable(session, raw),
{
}

/// A continuation that is not done suspends the handshake and changes
/// nothing of its outcome; one that is done completes the handshake exactly
/// if the output has reached the engine.
pub proof fn lemma_continuation_steps(session: Session)
    ensures
        settled_poll(session, Poll::Pending) == Poll::<Result<(), Error>>::Pending,
        session.key_exchange is Answered ==> settled_poll(session, Poll::Ready(Ok::<(), Error>(())))
            == Poll::Ready(Ok::<(), Error>(())),
        !(session.key_exchange is Answered) ==> settled_poll(
            session,
            Poll::Ready(Ok::<(), Error>(())),
        ) == Poll::Ready(Err::<(), Error>(Error::Abandoned)),
{
}

/// Drives a continuation for one cycle and judges what it reports by
/// [`settle_poll`]: it is done only if the output has reached the engine.
pub fn resume(future: &mut Box<dyn ConnectionFuture>, conn: &mut Connection, ctx: WakeHandle) -> (r:
    Poll<Result<(), Error>>)
    ensures
        exists|step: Poll<Result<(), Error>>| r == #[trigger] settled_poll(final(conn)@, step),
        r matches Poll::Ready(Ok(())) ==> final(conn)@.key_exchange is Answered,
{
    let step = future.poll(conn, ctx);
    settle_poll(conn, step)
}

/// The state of an [`Offload`] as a mathematical value.
pub struct OffloadState {
    /// How often the handler has been reached.
    pub deliveries: nat,
    /// Whether a continuation is still to be driven.
    pub pending: bool,
    /// How often a continuation has been driven so far.
    pub polls: nat,
}

/// The hand-off of the private-key operation of one handshake.
///
/// It reaches the handler once, for the first request that can be delivered,
/// and never again: later cycles drive the continuation, if the handler
/// returned one, and a handler that failed is not asked a second time. It
/// counts how often it has driven the continuation. Each time, the
/// continuation is given the wake handle of the task once; a handler that
/// answers at once is never given one.
pub struct Offload {
    future: Option<Box<dyn ConnectionFuture>>,
    polls: usize,
    delivered: bool,
}

impl View for Offload {
    type V = OffloadState;

    closed spec fn view(&self) -> OffloadState {
        OffloadState {
            deliveries: if self.delivered {
                1
            } else {
                0
            },
            pending: self.future.is_some(),
            polls: self.polls as nat,
        }
    }
}

/// One more than `polls`, as far as the counter goes.
pub open spec fn one_more(polls: nat) -> nat {
    if polls < usize::MAX {
        polls + 1
    } else {
        polls
    }
}

/// The count of polls after `cycles` more cycles of a continuation.
pub open spec fn after_cycles(polls: nat, cycles: nat) -> nat
    decreases cycles,
{
    if cycles == 0 {
        polls
    } else {
        one_more(after_cycles(polls, (cycles - 1) as nat))
    }
}

/// A continuation that needs `cycles` cycles has been driven exactly that
/// often when it is done: each cycle adds one to a count that began at
/// zero.
pub proof fn lemma_cycles_are_counted(cycles: nat)
    requires
        cycles <= usize::MAX,
    ensures
        after_cycles(0, cycles) == cycles,
    decreases cycles,
{
    if cycles > 0 {
        lemma_cycles_are_counted((cycles - 1) as nat);
    }
}

impl Offload {
    /// The hand-off for a handshake that has raised nothing yet.
    pub fn new() -> (offload: Offload)
        ensures
            offload@ == (OffloadState { deliveries: 0, pending: false, polls: 0 }),
    {
        Offload { future: None, polls: 0, delivered: false }
    }

    /// The handler is reached once in a handshake at most.
    pub proof fn lemma_at_most_one_delivery(&self)
        ensures
            self@.deliveries <= 1,
    {
    }

    /// Delivers what the engine raised on `conn` to the handler, and keeps
    /// the continuation if the handler returns one.
    ///
    /// If the handler has been reached before in this handshake, or the
    /// request cannot be delivered, the request is refused and neither the
    /// handler nor the session is touched. Otherwise the handler is reached,
    /// which is counted, and its answer is judged by [`settle`]: its error is
    /// the result, and an answer without continuation stands only if the
    /// output has reached the engine.
    pub fn begin<H: PrivateKeyCallback>(
        &mut self,
        handler: &H,
        conn: &mut Connection,
        raw: RawOperation,
    ) -> (r: Result<(), Error>)
        ensures
            old(self)@.deliveries > 0 || !deliverable(old(conn)@, raw) ==> r == Err::<(), Error>(
                Error::InvalidInput,
            ) && final(self)@ == old(self)@ && final(conn)@ == old(conn)@,
            old(self)@.deliveries == 0 && deliverable(old(conn)@, raw) ==> final(self)@.deliveries
                == 1 && final(self)@.polls == old(self)@.polls && exists|
                answer: Result<Option<Box<dyn ConnectionFuture>>, Error>,
            |
                match #[trigger] settled(final(conn)@, answer) {
                    Ok(future) => r is Ok && final(self)@.pending == future.is_some(),
                    Err(e) => r == Err::<(), Error>(e) && final(self)@.pending == old(
                        self
                    )@.pending,
                },
            r is Ok && !final(self)@.pending ==> final(conn)@.key_exchange is Answered,
    {
        if self.delivered {
            return Err(Error::InvalidInput);
        }
        let operation = match accept_request(conn, raw) {
            Ok(operation) => operation,
            Err(e) => return Err(e),
        };
        self.delivered = true;
        let answer = handler.handle_operation(conn, operation);
        match settle(conn, answer) {
            Ok(future) => {
                self.future = future;
                Ok(())
            },
            Err(e) => Err(e),
        }
    }

    /// How often the handler has been reached: never or once.
    pub fn deliveries(&self) -> (deliveries: usize)
        ensures
            deliveries == self@.deliveries,
            deliveries <= 1,
    {
        if self.delivered {
            1
        } else {
            0
        }
    }

    /// Whether a continuation is still to be driven.
    pub fn is_pending(&self) -> (pending: bool)
        ensures
            pending == self@.pending,
    {
        self.future.is_some()
    }

    /// How often a continuation has been driven so far.
    pub fn polls(&self) -> (polls: usize)
        ensures
            polls == self@.polls,
    {
        self.polls
    }

    /// Goes on with the operation for one cycle. The handler is not
    /// reached.
    ///
    /// With nothing pending, nothing is driven and nothing changes: the
    /// operation is complete if its output is with the engine, and was given
    /// up if not. Otherwise the continuation is driven once, which is
    /// counted, and it stays pending exactly if it reports that it is not
    /// done.
    pub fn poll(&mut self, conn: &mut Connection, ctx: WakeHandle) -> (r: Poll<Result<(), Error>>)
        ensures
            final(self)@.deliveries == old(self)@.deliveries,
            !old(self)@.pending ==> r == settled_poll(
                old(conn)@,
                Poll::Ready(Ok::<(), Error>(())),
            ) && final(self)@ == old(self)@ && final(conn)@ == old(conn)@,
            old(self)@.pending ==> final(self)@.polls == one_more(old(self)@.polls)
                && final(self)@.pending == (r is Pending),
            r == Poll::Ready(Ok::<(), Error>(())) ==> final(conn)@.key_exchange is Answered,
    {
        match self.future.take() {
            None => settle_poll(conn, Poll::Ready(Ok(()))),
            Some(mut future) => {
                if self.polls < usize::MAX {
                    self.polls = self.polls + 1;
                }
                let step = resume(&mut future, conn, ctx);
                if step.is_pending() {
                    self.future = Some(future);
                }
                step
            },
        }
    }
}

} // verus!
