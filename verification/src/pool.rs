//! Reuse of sessions.
//!
//! A new session costs a good deal of memory. A pool keeps sessions that are
//! no longer in use, reset, and hands them out again.
//!
//! [`ConfigPool`] keeps them in a queue of bounded length behind a lock. What
//! the queue holds when the lock is taken depends on the other threads, so
//! [`ConfigPool::take`], [`ConfigPool::give`] and [`ConfigPool::pool_size`]
//! promise what holds whatever the queue held. Each of them takes the lock and
//! calls the function that does the work on the queue in hand,
//! [`ConfigPool::take_from`], [`ConfigPool::give_to`] and
//! [`ConfigPool::size_of`], which say exactly what becomes of the queue.

use vstd::prelude::*;
use std::collections::VecDeque;
use std::sync::Arc;
use std::sync::Mutex;
use crate::config::Config;
use crate::connection::Builder;
use crate::connection::Connection;
use crate::connection::Session;
use crate::enums::Mode;
use crate::error::Error;
use crate::sync::guarded;
use crate::sync::guarded_mut;
use crate::sync::is_poisoned;
use crate::sync::lock;
use crate::sync::new_mutex;

verus! {

/// The sessions of a queue as mathematical values, front first.
pub open spec fn sessions(queue: Seq<Connection>) -> Seq<Session> {
    queue.map_values(|conn: Connection| conn@)
}

/// The queue after `session` has been given back to a pool that keeps at
/// most `max` sessions: a session that can be reset goes to the back, reset,
/// if there is room; any other is discarded.
pub open spec fn after_give(queue: Seq<Session>, session: Session, max: nat) -> Seq<Session> {
    if session.usable && queue.len() < max {
        queue.push(session.wiped())
    } else {
        queue
    }
}

/// The queue after all of `returned` have been given back, first to last.
pub open spec fn after_give_all(queue: Seq<Session>, returned: Seq<Session>, max: nat) -> Seq<
    Session,
>
    decreases returned.len(),
{
    if returned.len() == 0 {
        queue
    } else {
        after_give(
            after_give_all(queue, returned.drop_last(), max),
            returned.last(),
            max,
        )
    }
}

/// The queue after one session has been taken: the front is gone, if there
/// was one.
pub open spec fn after_take(queue: Seq<Session>) -> Seq<Session> {
    if queue.len() > 0 {
        queue.skip(1)
    } else {
        queue
    }
}

/// What a pool with this mode and configuration hands out for what its queue
/// gave: a session from the queue, bound to the pool's configuration again,
/// or, the queue being empty, a new one. A session from the queue that can no
/// longer be bound is an error.
pub open spec fn issued(mode: Mode, config: Config, from_pool: Option<Session>) -> Result<
    Session,
    Error,
> {
    match from_pool {
        Some(session) => if session.usable {
            Ok(session.bound_to(config))
        } else {
            Err(Error::Unusable)
        },
        None => Ok(Session::fresh(mode, Some(config))),
    }
}

/// What the queue gave, as a mathematical value.
pub open spec fn session_of(from_pool: Option<Connection>) -> Option<Session> {
    match from_pool {
        Some(conn) => Some(conn@),
        None => None,
    }
}

/// The size a pool reports for what its lock gave: the number of sessions in
/// the queue, and none where the lock could not be had.
pub open spec fn counted(queue: Option<&VecDeque<Connection>>) -> nat {
    match queue {
        Some(queue) => queue@.len(),
        None => 0,
    }
}

/// The front of a queue as far as a bound of `max` allows: all of it, or its
/// first `max` entries.
pub open spec fn bounded<T>(queue: Seq<T>, max: nat) -> Seq<T> {
    if queue.len() <= max {
        queue
    } else {
        queue.take(max as int)
    }
}

/// The front of a queue, if it has one.
pub open spec fn front(queue: Seq<Session>) -> Option<Session> {
    if queue.len() > 0 {
        Some(queue[0])
    } else {
        None
    }
}

/// An object pool that resets sessions and hands them out again.
pub trait Pool {
    /// The end of the negotiation this pool's sessions play.
    spec fn spec_mode(&self) -> Mode;

    /// What this pool promises of every session it hands out.
    spec fn yields(&self, session: Session) -> bool;

    /// The errors with which this pool may decline to hand out a session.
    spec fn declines(&self, e: Error) -> bool;

    fn mode(&self) -> (mode: Mode)
        ensures
            mode == self.spec_mode(),
    ;

    /// Hands out a session.
    fn take(&self) -> (r: Result<Connection, Error>)
        ensures
            r matches Ok(conn) ==> self.yields(conn@),
            r matches Err(e) ==> self.declines(e),
    ;

    /// Takes a session back.
    fn give(&self, conn: Connection);
}

impl Pool for Arc<dyn Pool> {
    open spec fn spec_mode(&self) -> Mode {
        (**self).spec_mode()
    }

    open spec fn yields(&self, session: Session) -> bool {
        (**self).yields(session)
    }

    open spec fn declines(&self, e: Error) -> bool {
        (**self).declines(e)
    }

    fn mode(&self) -> Mode {
        (**self).mode()
    }

    fn take(&self) -> Result<Connection, Error> {
        (**self).take()
    }

    fn give(&self, conn: Connection) {
        (**self).give(conn)
    }
}

impl<T: Pool> Pool for Arc<T> {
    open spec fn spec_mode(&self) -> Mode {
        (**self).spec_mode()
    }

    open spec fn yields(&self, session: Session) -> bool {
        (**self).yields(session)
    }

    open spec fn declines(&self, e: Error) -> bool {
        (**self).declines(e)
    }

    fn mode(&self) -> Mode {
        (**self).mode()
    }

    fn take(&self) -> Result<Connection, Error> {
        (**self).take()
    }

    fn give(&self, conn: Connection) {
        (**self).give(conn)
    }
}

/// A pool of sessions that all belong to one configuration.
///
/// Every session it hands out is bound to that configuration, whatever it
/// was bound to when it came back.
#[derive(Debug)]
pub struct ConfigPool {
    mode: Mode,
    config: Config,
    pool: Mutex<VecDeque<Connection>>,
    max_pool_size: usize,
}

pub type ConfigPoolRef = Arc<ConfigPool>;

impl ConfigPool {
    /// The configuration of this pool.
    pub closed spec fn spec_config(&self) -> Config {
        self.config
    }

    /// The most sessions the queue takes in.
    pub closed spec fn spec_max_pool_size(&self) -> usize {
        self.max_pool_size
    }

    /// The end of the negotiation this pool's sessions play.
    pub closed spec fn configured_mode(&self) -> Mode {
        self.mode
    }

    #[verifier::when_used_as_spec(spec_config)]
    pub fn config(&self) -> (config: Config)
        ensures
            config == self.spec_config(),
    {
        self.config
    }

    #[verifier::when_used_as_spec(spec_max_pool_size)]
    pub fn max_pool_size(&self) -> (max: usize)
        ensures
            max == self.spec_max_pool_size(),
    {
        self.max_pool_size
    }

    /// The number of sessions in the queue at this moment, and zero if the
    /// lock cannot be had.
    ///
    /// What the queue holds at this moment depends on the other threads, so
    /// nothing is promised of the number here; [`Self::size_of`] says what it
    /// is for a queue in hand.
    pub fn pool_size(&self) -> usize {
        let guard = lock(&self.pool);
        let queue = match &guard {
            Some(held) => Some(guarded(held)),
            None => None,
        };
        Self::size_of(queue)
    }

    /// [`Self::pool_size`] on what the lock gave: the length of the queue,
    /// and zero where the lock could not be had.
    pub fn size_of(queue: Option<&VecDeque<Connection>>) -> (size: usize)
        ensures
            size == counted(queue),
    {
        match queue {
            Some(queue) => queue.len(),
            None => 0,
        }
    }

    /// Whether a thread panicked while it held the lock of the queue.
    pub fn is_poisoned(&self) -> bool {
        is_poisoned(&self.pool)
    }

    /// Makes of what the queue gave the session to hand out: a session from
    /// the queue is bound to the pool's configuration, since its last user
    /// may have bound it to another; without one a new session is built.
    pub fn issue(&self, from_pool: Option<Connection>) -> (r: Result<Connection, Error>)
        ensures
            match issued(self.configured_mode(), self.spec_config(), session_of(from_pool)) {
                Ok(session) => r matches Ok(conn) && conn@ == session,
                Err(e) => r == Err::<Connection, Error>(e),
            },
    {
        let conn = match from_pool {
            Some(mut conn) => {
                conn.set_config(self.config)?;
                conn
            },
            None => self.config.build_connection(self.mode)?,
        };
        Ok(conn)
    }

    /// Puts a session that came back into the queue, if it was reset and
    /// there is room, and discards it otherwise.
    pub fn store(&self, queue: &mut VecDeque<Connection>, conn: Connection, wiped: bool)
        ensures
            wiped && old(queue)@.len() < self.spec_max_pool_size() ==> final(queue)@ == old(
                queue,
            )@.push(conn),
            !(wiped && old(queue)@.len() < self.spec_max_pool_size()) ==> final(queue)@ == old(
                queue,
            )@,
    {
        if queue.len() < self.max_pool_size && wiped {
            queue.push_back(conn);
        }
    }

    /// [`Pool::take`] on a queue in hand.
    pub fn take_from(&self, queue: &mut VecDeque<Connection>) -> (r: Result<Connection, Error>)
        ensures
            sessions(final(queue)@) == after_take(sessions(old(queue)@)),
            match issued(
                self.configured_mode(),
                self.spec_config(),
                front(sessions(old(queue)@)),
            ) {
                Ok(session) => r matches Ok(conn) && conn@ == session,
                Err(e) => r == Err::<Connection, Error>(e),
            },
    {
        let from_pool = queue.pop_front();
        self.issue(from_pool)
    }

    /// [`Pool::give`] on a queue in hand.
    pub fn give_to(&self, queue: &mut VecDeque<Connection>, conn: Connection)
        ensures
            sessions(final(queue)@) == after_give(
                sessions(old(queue)@),
                conn@,
                self.spec_max_pool_size() as nat,
            ),
    {
        let mut conn = conn;
        let wiped = conn.wipe().is_ok();
        self.store(queue, conn, wiped);
    }
}

impl Pool for ConfigPool {
    open spec fn spec_mode(&self) -> Mode {
        self.configured_mode()
    }

    /// Every session this pool hands out is bound to the pool's
    /// configuration, and its engine is sound.
    open spec fn yields(&self, session: Session) -> bool {
        session.config == Some(self.spec_config()) && session.usable
    }

    /// The one error is that of a session from the queue that can no longer
    /// be bound.
    open spec fn declines(&self, e: Error) -> bool {
        e == Error::Unusable
    }

    fn mode(&self) -> Mode {
        self.mode
    }

    /// Hands out the session at the front of the queue, or a new one if the
    /// queue is empty or its lock cannot be had.
    ///
    /// This is [`Self::take_from`] on the queue behind the lock, and on no
    /// queue where the lock cannot be had. What the queue holds depends on the
    /// other threads; whatever it gives, the result is what [`issued`] makes
    /// of it.
    fn take(&self) -> (r: Result<Connection, Error>)
        ensures
            exists|from_pool: Option<Session>|
                match #[trigger] issued(self.configured_mode(), self.spec_config(), from_pool) {
                    Ok(session) => r matches Ok(conn) && conn@ == session,
                    Err(e) => r == Err::<Connection, Error>(e),
                },
    {
        match lock(&self.pool) {
            Some(mut guard) => self.take_from(guarded_mut(&mut guard)),
            None => self.issue(None),
        }
    }

    /// Resets the session and puts it at the back of the queue if there is
    /// room. A session that cannot be reset, or for which there is no room,
    /// or that comes while the lock cannot be had, is discarded.
    ///
    /// This is [`Self::give_to`] on the queue behind the lock.
    fn give(&self, conn: Connection) {
        if let Some(mut guard) = lock(&self.pool) {
            self.give_to(guarded_mut(&mut guard), conn);
        }
    }
}

/// Builder for [`ConfigPool`].
pub struct ConfigPoolBuilder {
    mode: Mode,
    config: Config,
    pool: VecDeque<Connection>,
    max_pool_size: usize,
}

/// A builder as a mathematical value.
pub struct PoolPlan {
    pub mode: Mode,
    pub config: Config,
    pub queue: Seq<Connection>,
    pub max_pool_size: usize,
}

impl PoolPlan {
    /// The queue the pool starts with: the sessions the builder was given,
    /// front first, and no more of them than the bound allows.
    pub open spec fn initial_queue(self) -> Seq<Connection> {
        bounded(self.queue, self.max_pool_size as nat)
    }
}

impl View for ConfigPoolBuilder {
    type V = PoolPlan;

    closed spec fn view(&self) -> PoolPlan {
        PoolPlan {
            mode: self.mode,
            config: self.config,
            queue: self.pool@,
            max_pool_size: self.max_pool_size,
        }
    }
}

impl ConfigPoolBuilder {
    /// A pool for this mode and configuration, with an empty queue of
    /// unbounded length.
    pub fn new(mode: Mode, config: Config) -> (builder: Self)
        ensures
            builder@ == (PoolPlan {
                mode,
                config,
                queue: Seq::<Connection>::empty(),
                max_pool_size: usize::MAX,
            }),
    {
        ConfigPoolBuilder { mode, config, pool: VecDeque::new(), max_pool_size: usize::MAX }
    }

    /// Starts the pool with these sessions in its queue, as far as the bound
    /// that holds when the pool is built allows: see [`Self::initial_queue`].
    pub fn set_pool(&mut self, pool: VecDeque<Connection>) -> (builder: &mut Self)
        ensures
            builder@ == (PoolPlan { queue: pool@, ..old(self)@ }),
            *final(self) == *final(builder),
    {
        self.pool = pool;
        self
    }

    /// The most sessions the queue takes in.
    ///
    /// This is not the most sessions that can be handed out: once the queue
    /// is full, sessions that come back are discarded. Without this call the
    /// bound is `usize::MAX`.
    pub fn set_max_pool_size(&mut self, max_pool_size: usize) -> (builder: &mut Self)
        ensures
            builder@ == (PoolPlan { max_pool_size, ..old(self)@ }),
            *final(self) == *final(builder),
    {
        self.max_pool_size = max_pool_size;
        self
    }

    /// The queue the pool will start with: what [`Self::set_pool`] gave, cut
    /// at the back where it is longer than the bound, so that the queue is
    /// within its bound from the first moment.
    pub fn initial_queue(self) -> (queue: VecDeque<Connection>)
        ensures
            queue@ == self@.initial_queue(),
            queue@.len() <= self@.max_pool_size,
    {
        let mut queue = self.pool;
        queue.truncate(self.max_pool_size);
        queue
    }

    /// The pool, ready to be shared. Its queue, behind the lock, is
    /// [`Self::initial_queue`].
    pub fn build(self) -> (pool: Arc<ConfigPool>)
        ensures
            pool.configured_mode() == self@.mode,
            pool.spec_config() == self@.config,
            pool.spec_max_pool_size() == self@.max_pool_size,
    {
        let mode = self.mode;
        let config = self.config;
        let max_pool_size = self.max_pool_size;
        let queue = self.initial_queue();
        Arc::new(ConfigPool { mode, config, pool: new_mutex(queue), max_pool_size })
    }
}

/// A session on loan from a [`Pool`].
///
/// [`Self::release`] gives the session back to the pool it came from.
#[derive(Debug)]
pub struct PooledConnection<T: Pool = Arc<dyn Pool>> {
    pool: T,
    conn: Option<Connection>,
}

impl<T: Pool> PooledConnection<T> {
    /// The session on loan, if it has not been given back.
    pub closed spec fn session(&self) -> Option<Session> {
        match self.conn {
            Some(conn) => Some(conn@),
            None => None,
        }
    }

    /// The pool the session came from.
    pub closed spec fn pool(&self) -> T {
        self.pool
    }

    pub open spec fn spec_is_live(&self) -> bool {
        self.session().is_some()
    }

    /// Whether the session is still on loan.
    #[verifier::when_used_as_spec(spec_is_live)]
    pub fn is_live(&self) -> (live: bool)
        ensures
            live == self.spec_is_live(),
    {
        self.conn.is_some()
    }

    /// The session on loan.
    pub fn as_ref(&self) -> (conn: &Connection)
        requires
            self.is_live(),
        ensures
            Some(conn@) == self.session(),
    {
        self.conn.as_ref().unwrap()
    }

    /// The session on loan, to work with.
    pub fn as_mut(&mut self) -> (conn: &mut Connection)
        requires
            old(self).is_live(),
        ensures
            Some(conn@) == old(self).session(),
            final(self).session() == Some(final(conn)@),
            final(self).pool() == old(self).pool(),
    {
        self.conn.as_mut().unwrap()
    }

    /// Takes the session out of the loan, if it is still there. This is the
    /// one way a session leaves a loan, and it leaves none behind.
    fn surrender(&mut self) -> (conn: Option<Connection>)
        ensures
            session_of(conn) == old(self).session(),
            !final(self).is_live(),
            final(self).pool() == old(self).pool(),
    {
        self.conn.take()
    }

    /// Gives the session back to its pool, and says whether there was one to
    /// give. After the first call there is none: however often this is
    /// called, the pool is given one session.
    ///
    /// What the pool does with the session is the pool's; for a
    /// [`ConfigPool`], [`PooledConnection::release_to`] says what becomes of
    /// its queue.
    pub fn release(&mut self) -> (returned: bool)
        ensures
            returned == old(self).is_live(),
            !final(self).is_live(),
            final(self).pool() == old(self).pool(),
    {
        match self.surrender() {
            Some(conn) => {
                self.pool.give(conn);
                true
            },
            None => false,
        }
    }
}

impl PooledConnection<ConfigPoolRef> {
    /// [`Self::release`] on a queue in hand: a session still on loan is given
    /// to the queue as [`ConfigPool::give_to`] gives it, and a loan that has
    /// been released leaves the queue as it is.
    pub fn release_to(&mut self, queue: &mut VecDeque<Connection>) -> (returned: bool)
        ensures
            returned == old(self).is_live(),
            (final(self).session(), sessions(final(queue)@)) == after_release(
                old(self).session(),
                sessions(old(queue)@),
                old(self).pool().spec_max_pool_size() as nat,
            ),
            final(self).pool() == old(self).pool(),
    {
        match self.surrender() {
            Some(conn) => {
                self.pool.give_to(queue, conn);
                true
            },
            None => false,
        }
    }
}

impl<T: Pool + Clone> PooledConnection<T> {
    /// Takes a session from `pool` on loan.
    pub fn new(pool: &T) -> (r: Result<PooledConnection<T>, Error>)
        ensures
            r matches Ok(loan) ==> loan.session() matches Some(session) && pool.yields(session),
            r matches Ok(loan) ==> vstd::pervasive::cloned(*pool, loan.pool()),
            r matches Err(e) ==> pool.declines(e),
    {
        match pool.take() {
            Ok(conn) => {
                let conn = Some(conn);
                let pool = pool.clone();
                Ok(PooledConnection { pool, conn })
            },
            Err(e) => Err(e),
        }
    }
}

/// A pool that keeps at most `max` sessions and holds no more than that
/// never comes to hold more, whatever is given back to it.
pub proof fn lemma_give_keeps_bound(queue: Seq<Session>, session: Session, max: nat)
    requires
        queue.len() <= max,
    ensures
        after_give(queue, session, max).len() <= max,
        queue.len() <= after_give(queue, session, max).len() <= queue.len() + 1,
{
}

/// The queue a pool starts with is within its bound, whatever the builder
/// was given, and is the front of what it was given.
pub proof fn lemma_initial_queue_is_within_bound(plan: PoolPlan)
    ensures
        plan.initial_queue().len() <= plan.max_pool_size,
        plan.initial_queue().is_prefix_of(plan.queue),
        plan.queue.len() <= plan.max_pool_size ==> plan.initial_queue() == plan.queue,
{
}

/// The queue never exceeds its bound: one that is within it stays within it
/// whatever is taken from it and whatever is given back to it, whether the
/// sessions that come back can be reset or not.
pub proof fn lemma_queue_never_exceeds_bound(
    queue: Seq<Session>,
    returned: Seq<Session>,
    max: nat,
)
    requires
        queue.len() <= max,
    ensures
        after_take(queue).len() <= max,
        after_give_all(queue, returned, max).len() <= max,
    decreases returned.len(),
{
    if returned.len() > 0 {
        lemma_queue_never_exceeds_bound(queue, returned.drop_last(), max);
    }
}

/// Giving back sessions that can all be reset fills the queue up to its
/// bound and no further: from a queue of length `n` within the bound, `k`
/// returns leave `min(n + k, max)` sessions.
pub proof fn lemma_give_all_len(queue: Seq<Session>, returned: Seq<Session>, max: nat)
    requires
        queue.len() <= max,
        forall|i: int| 0 <= i < returned.len() ==> (#[trigger] returned[i]).usable,
    ensures
        after_give_all(queue, returned, max).len() == if queue.len() + returned.len() <= max {
            queue.len() + returned.len()
        } else {
            max
        },
    decreases returned.len(),
{
    if returned.len() > 0 {
        let earlier = returned.drop_last();
        assert forall|i: int| 0 <= i < earlier.len() implies (#[trigger] earlier[i]).usable by {
            assert(earlier[i] == returned[i]);
        }
        lemma_give_all_len(queue, earlier, max);
    }
}

/// The queue after `n` sessions have been taken from it, one after the
/// other, and none given back.
pub open spec fn after_take_n(queue: Seq<Session>, n: nat) -> Seq<Session>
    decreases n,
{
    if n == 0 {
        queue
    } else {
        after_take(after_take_n(queue, (n - 1) as nat))
    }
}

/// Taking `n` sessions shortens the queue by `n`, and empties a queue that
/// had no more than that.
pub proof fn lemma_take_n_len(queue: Seq<Session>, n: nat)
    ensures
        after_take_n(queue, n).len() == if queue.len() >= n {
            queue.len() - n
        } else {
            0
        },
    decreases n,
{
    if n > 0 {
        lemma_take_n_len(queue, (n - 1) as nat);
    }
}

/// When `n` sessions are taken and held, all of them, before any comes
/// back, the queue they leave behind is empty, provided it held no more than
/// `n`; and when all `n`, each fit to be reset, have come back, the pool
/// holds `min(n, max)` sessions.
pub proof fn lemma_pool_size_after_returns(queue: Seq<Session>, returned: Seq<Session>, max: nat)
    requires
        queue.len() <= returned.len(),
        forall|i: int| 0 <= i < returned.len() ==> (#[trigger] returned[i]).usable,
    ensures
        after_take_n(queue, returned.len()).len() == 0,
        after_give_all(after_take_n(queue, returned.len()), returned, max).len() == (
        if returned.len() <= max {
            returned.len()
        } else {
            max
        }),
{
    lemma_take_n_len(queue, returned.len());
    lemma_give_all_len(after_take_n(queue, returned.len()), returned, max);
}

/// Every session in a queue that was empty and has only been given to is
/// clean: reset, with no adapter installed and nothing negotiated.
pub proof fn lemma_given_sessions_are_clean(returned: Seq<Session>, max: nat)
    ensures
        forall|i: int|
            0 <= i < after_give_all(Seq::<Session>::empty(), returned, max).len() ==> (
            #[trigger] after_give_all(Seq::<Session>::empty(), returned, max)[i]).is_clean(),
    decreases returned.len(),
{
    let empty = Seq::<Session>::empty();
    let now = after_give_all(empty, returned, max);
    if returned.len() > 0 {
        let before = after_give_all(empty, returned.drop_last(), max);
        lemma_given_sessions_are_clean(returned.drop_last(), max);
        assert forall|i: int| 0 <= i < now.len() implies (#[trigger] now[i]).is_clean() by {
            if i < before.len() {
                assert(now[i] == before[i]);
            }
        }
    }
}

/// What a pool hands out is bound to the pool's configuration, whatever the
/// session from its queue was bound to before.
pub proof fn lemma_issued_is_bound(mode: Mode, config: Config, from_pool: Option<Session>)
    ensures
        issued(mode, config, from_pool) matches Ok(session) ==> session.config == Some(config)
            && session.usable,
        from_pool matches Some(session) && session.usable ==> issued(mode, config, from_pool)
            is Ok,
        from_pool.is_none() ==> issued(mode, config, from_pool) is Ok,
{
}

/// What becomes of a loan and of the queue when the loan is released: a
/// session on loan is given to the queue, and the loan is empty afterwards.
pub open spec fn after_release(loan: Option<Session>, queue: Seq<Session>, max: nat) -> (
    Option<Session>,
    Seq<Session>,
) {
    match loan {
        Some(session) => (None, after_give(queue, session, max)),
        None => (None, queue),
    }
}

/// Releasing a loan gives the pool one session at most, and releasing it
/// again gives it nothing.
pub proof fn lemma_release_is_idempotent(loan: Option<Session>, queue: Seq<Session>, max: nat)
    ensures
        ({
            let once = after_release(loan, queue, max);
            let twice = after_release(once.0, once.1, max);
            &&& twice == once
            &&& once.0.is_none()
            &&& once.1.len() <= queue.len() + 1
            &&& loan.is_none() ==> once.1 == queue
        }),
{
}

} // verus!
