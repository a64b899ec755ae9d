use vstd::prelude::*;
use redis::RedisError;

verus! {

#[verifier::external_type_specification]
#[verifier::external_body]
pub struct ExRedisError(redis::RedisError);

/// What `redis::RedisError::is_connection_dropped` answers for an error: a
/// function of the error value alone (its kind, and for an I/O error the
/// I/O error kind).
pub uninterp spec fn error_drops_connection(e: RedisError) -> bool;

/// What `redis::RedisError::is_io_error` answers for an error: whether the
/// error's kind is `Io`, a function of the error value alone.
pub uninterp spec fn error_is_io(e: RedisError) -> bool;

/// `redis::RedisError::is_connection_dropped`: whether the error says that
/// the connection to the server broke.  The answer is named, not spelt out.
#[verifier::external_body]
fn reports_connection_dropped(e: &RedisError) -> (b: bool)
    ensures
        b == error_drops_connection(*e),
{
    e.is_connection_dropped()
}

/// `redis::RedisError::is_io_error`: whether the error's kind is an I/O
/// failure.  The answer is named, not spelt out.
#[verifier::external_body]
fn reports_io_error(e: &RedisError) -> (b: bool)
    ensures
        b == error_is_io(*e),
{
    e.is_io_error()
}

/// What the cache holds.
pub enum CacheState<C> {
    /// No connection, and none being dialled.
    Empty,
    /// One caller is dialling the connection; the others wait for it.
    Dialing,
    /// The connection, shared by every caller.
    Ready(C),
}

/// What a caller does to obtain a connection to the store.
pub enum ConnectStep<C> {
    /// The connection is cached: use this copy of it.
    Reuse(C),
    /// No connection is cached and none is being dialled: dial one, then hand
    /// the outcome to `accept_dialed` (or call `abandon_dial` where the dial
    /// is given up).
    Dial,
    /// Another caller is dialling: ask again later.
    Wait,
}

/// The single store connection that a service keeps for its lifetime,
/// dialled on first use, by one caller at a time, and dialled again only
/// after a failure broke it.
pub struct ConnectionCache<C> {
    state: CacheState<C>,
}

impl<C> View for ConnectionCache<C> {
    type V = CacheState<C>;

    closed spec fn view(&self) -> CacheState<C> {
        self.state
    }
}

/// Whether a store failure means that the cached connection is no longer
/// usable: the connection was dropped, or the failure is one of I/O.
pub open spec fn breaks_connection(dropped: bool, io: bool) -> bool {
    dropped || io
}

/// The cache after a caller asked for a connection: an empty cache now
/// waits for the dial that this caller is told to make.
pub open spec fn state_after_request<C>(s: CacheState<C>) -> CacheState<C> {
    match s {
        CacheState::Empty => CacheState::Dialing,
        _ => s,
    }
}

/// The cache after the outcome of a dial: a cached connection is kept; else
/// the new connection is cached, and a failed dial leaves the cache empty.
pub open spec fn state_after_dial<C>(s: CacheState<C>, dialed: Result<C, String>) -> CacheState<C> {
    match s {
        CacheState::Ready(c) => CacheState::Ready(c),
        _ => match dialed {
            Ok(c) => CacheState::Ready(c),
            Err(_) => CacheState::Empty,
        },
    }
}

/// The cache after a store failure, classified by whether it dropped the
/// connection and whether it is one of I/O: only a cached connection that
/// the failure broke is forgotten.
pub open spec fn state_after_failure<C>(s: CacheState<C>, dropped: bool, io: bool) -> CacheState<C> {
    match s {
        CacheState::Ready(_) => if breaks_connection(dropped, io) {
            CacheState::Empty
        } else {
            s
        },
        _ => s,
    }
}

/// The cache after the caller that was dialling gave the dial up.
pub open spec fn state_after_abandon<C>(s: CacheState<C>) -> CacheState<C> {
    match s {
        CacheState::Dialing => CacheState::Empty,
        _ => s,
    }
}

/// What can happen to the cache.
pub enum CacheEvent<C> {
    /// A caller asks for a connection.
    Request,
    /// The dialling caller hands in the outcome of its dial.
    Dialed(Result<C, String>),
    /// A store command failed; whether it dropped the connection and whether
    /// it is one of I/O.
    Failure(bool, bool),
    /// The dialling caller gave its dial up.
    Abandon,
}

/// The cache after one event.
pub open spec fn state_after<C>(s: CacheState<C>, e: CacheEvent<C>) -> CacheState<C> {
    match e {
        CacheEvent::Request => state_after_request(s),
        CacheEvent::Dialed(d) => state_after_dial(s, d),
        CacheEvent::Failure(dropped, io) => state_after_failure(s, dropped, io),
        CacheEvent::Abandon => state_after_abandon(s),
    }
}

/// The cache after a run of events, taken in order.
pub open spec fn state_after_all<C>(s: CacheState<C>, events: Seq<CacheEvent<C>>) -> CacheState<C>
    decreases events.len(),
{
    if events.len() == 0 {
        s
    } else {
        state_after_all(state_after(s, events[0]), events.drop_first())
    }
}

/// How many of the requests in a run of events are told to dial.
pub open spec fn dials_in<C>(s: CacheState<C>, events: Seq<CacheEvent<C>>) -> nat
    decreases events.len(),
{
    if events.len() == 0 {
        0
    } else {
        let here: nat = if events[0] is Request && s is Empty { 1 } else { 0 };
        here + dials_in(state_after(s, events[0]), events.drop_first())
    }
}

/// Whether an event is a failure that breaks the connection.
pub open spec fn is_breaking<C>(e: CacheEvent<C>) -> bool {
    match e {
        CacheEvent::Failure(dropped, io) => breaks_connection(dropped, io),
        _ => false,
    }
}

/// Whether an event ends a dial: its outcome, or giving it up.
pub open spec fn ends_dial<C>(e: CacheEvent<C>) -> bool {
    e is Dialed || e is Abandon
}

/// One connection for the process lifetime: once a connection is cached, it
/// stays cached through every request, late dial outcome or give-up, and
/// through every failure that did not break it.
pub proof fn lemma_ready_kept<C>(conn: C, events: Seq<CacheEvent<C>>)
    requires
        forall|i: int| 0 <= i < events.len() ==> !is_breaking(#[trigger] events[i]),
    ensures
        state_after_all(CacheState::Ready(conn), events) == CacheState::Ready(conn),
    decreases events.len(),
{
    if events.len() > 0 {
        assert(!is_breaking(events[0]));
        let rest = events.drop_first();
        assert forall|i: int| 0 <= i < rest.len() implies !is_breaking(#[trigger] rest[i]) by {
            assert(rest[i] == events[i + 1]);
        }
        lemma_ready_kept(conn, rest);
    }
}

/// One dial at a time: until a dial's outcome is handed in or the dial is
/// given up, at most one request is told to dial, however many callers ask;
/// and none is while a dial is under way.
pub proof fn lemma_one_dial_at_a_time<C>(s: CacheState<C>, events: Seq<CacheEvent<C>>)
    requires
        forall|i: int| 0 <= i < events.len() ==> !ends_dial(#[trigger] events[i]),
    ensures
        dials_in(s, events) <= 1,
        s is Dialing ==> dials_in(s, events) == 0,
    decreases events.len(),
{
    if events.len() > 0 {
        let rest = events.drop_first();
        assert forall|i: int| 0 <= i < rest.len() implies !ends_dial(#[trigger] rest[i]) by {
            assert(rest[i] == events[i + 1]);
        }
        assert(!ends_dial(events[0]));
        let next = state_after(s, events[0]);
        lemma_one_dial_at_a_time(next, rest);
        if events[0] is Request {
            if s is Empty {
                assert(next is Dialing);
            }
        } else {
            assert(events[0] is Failure);
            assert(s is Dialing ==> next is Dialing);
        }
    }
}

/// A connection is cached only as it was before, or as a dial handed it in:
/// nothing else fills or replaces the cache.
pub proof fn lemma_cached_only_from_dial<C>(s: CacheState<C>, e: CacheEvent<C>, conn: C)
    requires
        state_after(s, e) == CacheState::Ready(conn),
    ensures
        s == CacheState::Ready(conn) || e == CacheEvent::Dialed(Ok::<C, String>(conn)),
{
}

/// After a failure broke the cached connection, the next request dials a new
/// one.
pub proof fn lemma_broken_forces_dial<C>(conn: C, dropped: bool, io: bool)
    requires
        breaks_connection(dropped, io),
    ensures
        state_after_failure(CacheState::Ready(conn), dropped, io) is Empty,
        state_after_request(state_after_failure(CacheState::Ready(conn), dropped, io)) is Dialing,
{
}

/// A failure never starts a dial and never fills the cache: it leaves the
/// cache as it was, or empties a cache that held a connection.  In
/// particular a failure reported while nothing is cached leaves the cache
/// empty, and one reported while a dial is under way leaves that dial
/// under way.
pub proof fn lemma_failure_only_empties<C>(s: CacheState<C>, dropped: bool, io: bool)
    ensures
        state_after_failure(s, dropped, io) == s || state_after_failure(s, dropped, io) is Empty,
        s is Empty ==> state_after_failure(s, dropped, io) is Empty,
        s is Dialing ==> state_after_failure(s, dropped, io) is Dialing,
        s is Ready && (dropped || io) ==> state_after_failure(s, dropped, io) is Empty,
        s is Ready && !dropped && !io ==> state_after_failure(s, dropped, io) == s,
{
}

/// A dial is under way only because a request found the cache empty: no
/// other event moves the cache into the dialling state.
pub proof fn lemma_dial_starts_only_on_request<C>(s: CacheState<C>, e: CacheEvent<C>)
    requires
        !(s is Dialing),
        state_after(s, e) is Dialing,
    ensures
        e is Request,
        s is Empty,
{
}

/// What a request does to the cache: an empty cache now waits for the dial
/// this request is told to make; a cache that holds a connection, or that
/// waits for a dial, is left as it is.
pub proof fn lemma_request_effect<C>(s: CacheState<C>)
    ensures
        s is Empty ==> state_after_request(s) is Dialing,
        !(s is Empty) ==> state_after_request(s) == s,
{
}

/// What the outcome of a dial does: a cached connection is never replaced;
/// otherwise a dialled connection is cached, and a failed dial leaves the
/// cache empty so that the next request dials again.
pub proof fn lemma_dial_effect<C>(s: CacheState<C>, dialed: Result<C, String>)
    ensures
        s is Ready ==> state_after_dial(s, dialed) == s,
        !(s is Ready) && dialed is Ok ==> state_after_dial(s, dialed) == CacheState::Ready(dialed->Ok_0),
        !(s is Ready) && dialed is Err ==> state_after_dial(s, dialed) is Empty,
{
}

/// Giving a dial up empties a cache that waited for it and leaves any other
/// cache as it is.
pub proof fn lemma_abandon_effect<C>(s: CacheState<C>)
    ensures
        s is Dialing ==> state_after_abandon(s) is Empty,
        !(s is Dialing) ==> state_after_abandon(s) == s,
{
}

/// Failures alone never leave the cache waiting for a dial that nobody
/// makes: from a cache with no dial under way, after any run of failures of
/// which one broke the connection, the cache is empty, and so the next
/// request is told to dial.
pub proof fn lemma_failures_then_request_dials<C>(s: CacheState<C>, events: Seq<CacheEvent<C>>, k: int)
    requires
        !(s is Dialing),
        forall|i: int| 0 <= i < events.len() ==> (#[trigger] events[i]) is Failure,
        0 <= k < events.len(),
        is_breaking(events[k]),
    ensures
        state_after_all(s, events) is Empty,
        state_after_request(state_after_all(s, events)) is Dialing,
    decreases events.len(),
{
    let rest = events.drop_first();
    assert forall|i: int| 0 <= i < rest.len() implies (#[trigger] rest[i]) is Failure by {
        assert(rest[i] == events[i + 1]);
    }
    assert(events[0] is Failure);
    let next = state_after(s, events[0]);
    assert(!(next is Dialing));
    if k == 0 {
        assert(next is Empty);
        lemma_failures_keep_empty(rest);
    } else {
        assert(rest[k - 1] == events[k]);
        lemma_failures_then_request_dials(next, rest, k - 1);
    }
}

/// An empty cache stays empty through any run of failures.
pub proof fn lemma_failures_keep_empty<C>(events: Seq<CacheEvent<C>>)
    requires
        forall|i: int| 0 <= i < events.len() ==> (#[trigger] events[i]) is Failure,
    ensures
        state_after_all(CacheState::Empty, events) is Empty,
    decreases events.len(),
{
    if events.len() > 0 {
        let rest = events.drop_first();
        assert forall|i: int| 0 <= i < rest.len() implies (#[trigger] rest[i]) is Failure by {
            assert(rest[i] == events[i + 1]);
        }
        assert(events[0] is Failure);
        lemma_failures_keep_empty(rest);
    }
}

impl<C> ConnectionCache<C> {
    /// A cache that holds no connection yet.
    pub fn new() -> (cache: Self)
        ensures
            cache@ is Empty,
    {
        ConnectionCache { state: CacheState::Empty }
    }

    /// Whether a connection is cached.
    pub fn is_connected(&self) -> (b: bool)
        ensures
            b == self@ is Ready,
    {
        match self.state {
            CacheState::Ready(_) => true,
            _ => false,
        }
    }

    /// Gives up the dial under way: the next request dials again.
    pub fn abandon_dial(&mut self)
        ensures
            final(self)@ == state_after_abandon(old(self)@),
            old(self)@ is Dialing ==> final(self)@ is Empty,
            !(old(self)@ is Dialing) ==> final(self)@ == old(self)@,
    {
        if let CacheState::Dialing = self.state {
            self.state = CacheState::Empty;
        }
    }

    /// Forgets the cached connection where a failure broke it: where it was
    /// dropped or the failure is one of I/O.  Returns whether it did.
    pub fn invalidate_if(&mut self, dropped: bool, io: bool) -> (cleared: bool)
        ensures
            cleared == (old(self)@ is Ready && breaks_connection(dropped, io)),
            final(self)@ == state_after_failure(old(self)@, dropped, io),
            final(self)@ == old(self)@ || final(self)@ is Empty,
            old(self)@ is Empty ==> final(self)@ is Empty,
            old(self)@ is Dialing ==> final(self)@ is Dialing,
            cleared ==> final(self)@ is Empty,
            !cleared ==> final(self)@ == old(self)@,
    {
        if dropped || io {
            if let CacheState::Ready(_) = self.state {
                self.state = CacheState::Empty;
                return true;
            }
        }
        false
    }

    /// Handles a failed store command: forgets the cached connection exactly
    /// where the error says that it was dropped or is one of I/O, and returns
    /// the error's text, as the error's `Display` writes it.
    pub fn record_failure(&mut self, e: RedisError) -> (text: String)
        ensures
            final(self)@ == state_after_failure(old(self)@, error_drops_connection(e), error_is_io(e)),
            final(self)@ == old(self)@ || final(self)@ is Empty,
            old(self)@ is Empty ==> final(self)@ is Empty,
            old(self)@ is Dialing ==> final(self)@ is Dialing,
            old(self)@ is Ready && (error_drops_connection(e) || error_is_io(e)) ==> final(self)@ is Empty,
            old(self)@ is Ready && !error_drops_connection(e) && !error_is_io(e) ==> final(self)@ == old(self)@,
            vstd::string::to_string_from_display_ensures::<RedisError>(&e, text),
    {
        let dropped = reports_connection_dropped(&e);
        let io = reports_io_error(&e);
        self.invalidate_if(dropped, io);
        e.to_string()
    }
}

impl<C: Clone> ConnectionCache<C> {
    /// The first step towards a connection: a copy of the cached one; a
    /// request to dial where none is cached and none is being dialled, after
    /// which the cache waits for that dial; or a request to wait.
    pub fn next_step(&mut self) -> (step: ConnectStep<C>)
        ensures
            final(self)@ == state_after_request(old(self)@),
            old(self)@ is Empty ==> final(self)@ is Dialing,
            !(old(self)@ is Empty) ==> final(self)@ == old(self)@,
            match step {
                ConnectStep::Reuse(c) => old(self)@ is Ready && cloned(old(self)@->Ready_0, c),
                ConnectStep::Dial => old(self)@ is Empty,
                ConnectStep::Wait => old(self)@ is Dialing,
            },
    {
        match &self.state {
            CacheState::Ready(c) => ConnectStep::Reuse(c.clone()),
            CacheState::Dialing => ConnectStep::Wait,
            CacheState::Empty => {
                self.state = CacheState::Dialing;
                ConnectStep::Dial
            },
        }
    }

    /// Takes in the outcome of dialling.  A connection already cached is
    /// kept, and a copy of it handed back.  Otherwise a new connection is
    /// cached and a copy of it handed back, and a dial error is handed back
    /// with the cache left empty.
    pub fn accept_dialed(&mut self, dialed: Result<C, String>) -> (r: Result<C, String>)
        ensures
            final(self)@ == state_after_dial(old(self)@, dialed),
            old(self)@ is Ready ==> final(self)@ == old(self)@,
            !(old(self)@ is Ready) && dialed is Ok ==> final(self)@ == CacheState::Ready(dialed->Ok_0),
            !(old(self)@ is Ready) && dialed is Err ==> final(self)@ is Empty,
            match old(self)@ {
                CacheState::Ready(cached) => r is Ok && cloned(cached, r->Ok_0),
                _ => match dialed {
                    Ok(c) => r is Ok && cloned(c, r->Ok_0),
                    Err(msg) => r == Err::<C, String>(msg),
                },
            },
    {
        if let CacheState::Ready(cached) = &self.state {
            return Ok(cached.clone());
        }
        match dialed {
            Ok(c) => {
                let copy = c.clone();
                self.state = CacheState::Ready(c);
                Ok(copy)
            },
            Err(msg) => {
                self.state = CacheState::Empty;
                Err(msg)
            },
        }
    }
}

} // verus!
