//! Sliding-window admission control, one timestamp history per client key.
//!
//! Time is counted in nanoseconds since the limiter was created. A request at
//! time `now` is admitted when fewer than `max_requests` earlier admissions of
//! the same key lie strictly after `now - window`.

use crate::domain::text::{uuid_text, uuid_to_text};
use std::time::Instant;
use vstd::prelude::*;

verus! {

/// `std::time::Instant`, a reading of the monotonic clock, carried as it is.
#[verifier::external_type_specification]
#[verifier::external_body]
pub struct ExInstant(std::time::Instant);

/// A recorded admission at `t` still counts at `now`: it lies strictly after
/// the cutoff `now - window`.
pub open spec fn in_window(t: u128, now: u128, window: u128) -> bool {
    t as int > now as int - window as int
}

/// The admissions of `history` that still count at `now`, in their order.
pub open spec fn retained(history: Seq<u128>, now: u128, window: u128) -> Seq<u128> {
    history.filter(|t: u128| in_window(t, now, window))
}

/// The recorded admissions of `key`; none for a key never seen.
pub open spec fn history_of(log: Map<Seq<char>, Seq<u128>>, key: Seq<char>) -> Seq<u128> {
    if log.contains_key(key) {
        log[key]
    } else {
        Seq::empty()
    }
}

/// Whether a request of `key` at `now` is admitted.
pub open spec fn admits(
    log: Map<Seq<char>, Seq<u128>>,
    key: Seq<char>,
    now: u128,
    window: u128,
    max_requests: nat,
) -> bool {
    retained(history_of(log, key), now, window).len() < max_requests
}

/// The log after a request of `key` at `now`: stale admissions of `key` are
/// dropped, and `now` is recorded when the request is admitted.
pub open spec fn log_after(
    log: Map<Seq<char>, Seq<u128>>,
    key: Seq<char>,
    now: u128,
    window: u128,
    max_requests: nat,
) -> Map<Seq<char>, Seq<u128>> {
    let kept = retained(history_of(log, key), now, window);
    log.insert(
        key,
        if kept.len() < max_requests {
            kept.push(now)
        } else {
            kept
        },
    )
}

struct ClientState {
    key: String,
    requests: Vec<u128>,
}

pub struct RateLimiter {
    max_requests: usize,
    window: u128,
    epoch: Instant,
    store: Vec<ClientState>,
}

spec fn holds_key(store: Seq<ClientState>, i: int, key: Seq<char>) -> bool {
    0 <= i < store.len() && store[i].key@ == key
}

spec fn slot_of(store: Seq<ClientState>, key: Seq<char>) -> int {
    choose|i: int| holds_key(store, i, key)
}

spec fn distinct_keys(store: Seq<ClientState>) -> bool {
    forall|i: int, j: int|
        0 <= i < j < store.len() ==> (#[trigger] store[i]).key@ != (#[trigger] store[j]).key@
}

spec fn log_of(store: Seq<ClientState>) -> Map<Seq<char>, Seq<u128>> {
    Map::new(
        |k: Seq<char>| exists|i: int| holds_key(store, i, k),
        |k: Seq<char>| store[slot_of(store, k)].requests@,
    )
}

proof fn lemma_slot(store: Seq<ClientState>, i: int, key: Seq<char>)
    requires
        distinct_keys(store),
        holds_key(store, i, key),
    ensures
        slot_of(store, key) == i,
        log_of(store).contains_key(key),
        log_of(store)[key] == store[i].requests@,
{
    let j = slot_of(store, key);
    assert(holds_key(store, j, key));
    if j < i {
        assert(store[j].key@ != store[i].key@);
    } else if i < j {
        assert(store[i].key@ != store[j].key@);
    }
}

proof fn lemma_log_update(store: Seq<ClientState>, i: int, next: ClientState)
    requires
        distinct_keys(store),
        0 <= i < store.len(),
        next.key@ == store[i].key@,
    ensures
        distinct_keys(store.update(i, next)),
        log_of(store.update(i, next)) == log_of(store).insert(next.key@, next.requests@),
{
    let after = store.update(i, next);
    assert forall|a: int, b: int| 0 <= a < b < after.len() implies (#[trigger] after[a]).key@ != (
    #[trigger] after[b]).key@ by {
        assert(store[a].key@ != store[b].key@);
    }
    let want = log_of(store).insert(next.key@, next.requests@);
    assert forall|k: Seq<char>| log_of(after).contains_key(k) <==> want.contains_key(k) by {
        if log_of(after).contains_key(k) {
            let j = choose|j: int| holds_key(after, j, k);
            assert(holds_key(store, j, k));
        }
        if want.contains_key(k) {
            if k == next.key@ {
                assert(holds_key(after, i, k));
            } else {
                let j = choose|j: int| holds_key(store, j, k);
                assert(holds_key(after, j, k));
            }
        }
    }
    assert forall|k: Seq<char>| log_of(after).contains_key(k) implies log_of(after)[k] == want[k] by {
        let j = choose|j: int| holds_key(after, j, k);
        lemma_slot(after, j, k);
        if k != next.key@ {
            assert(holds_key(store, j, k));
            lemma_slot(store, j, k);
        } else {
            lemma_slot(after, i, k);
        }
    }
    assert(log_of(after) =~= want);
}

proof fn lemma_log_push(store: Seq<ClientState>, next: ClientState)
    requires
        distinct_keys(store),
        !log_of(store).contains_key(next.key@),
    ensures
        distinct_keys(store.push(next)),
        log_of(store.push(next)) == log_of(store).insert(next.key@, next.requests@),
{
    let after = store.push(next);
    let n = store.len() as int;
    assert forall|a: int, b: int| 0 <= a < b < after.len() implies (#[trigger] after[a]).key@ != (
    #[trigger] after[b]).key@ by {
        if b < n {
            assert(store[a].key@ != store[b].key@);
        } else {
            if after[a].key@ == next.key@ {
                assert(holds_key(store, a, next.key@));
            }
        }
    }
    let want = log_of(store).insert(next.key@, next.requests@);
    assert forall|k: Seq<char>| log_of(after).contains_key(k) <==> want.contains_key(k) by {
        if log_of(after).contains_key(k) {
            let j = choose|j: int| holds_key(after, j, k);
            if j < n {
                assert(holds_key(store, j, k));
            }
        }
        if want.contains_key(k) {
            if k == next.key@ {
                assert(holds_key(after, n, k));
            } else {
                let j = choose|j: int| holds_key(store, j, k);
                assert(holds_key(after, j, k));
            }
        }
    }
    assert forall|k: Seq<char>| log_of(after).contains_key(k) implies log_of(after)[k] == want[k] by {
        let j = choose|j: int| holds_key(after, j, k);
        lemma_slot(after, j, k);
        if k != next.key@ {
            assert(holds_key(store, j, k));
            lemma_slot(store, j, k);
        } else {
            assert(holds_key(after, n, k));
            lemma_slot(after, n, k);
        }
    }
    assert(log_of(after) =~= want);
}

/// `Instant::now`: the current reading of the monotonic clock. Nothing is
/// claimed of the value.
#[verifier::external_body]
fn clock_start() -> (epoch: Instant) {
    Instant::now()
}

/// `Instant::elapsed`, converted by `Duration::as_nanos`: the nanoseconds
/// that have passed since `epoch`. Nothing is claimed of the value.
#[verifier::external_body]
fn nanos_since(epoch: &Instant) -> (now: u128) {
    epoch.elapsed().as_nanos()
}

/// The admissions of `history` that still count at `now`.
fn retain_recent(history: &Vec<u128>, now: u128, window: u128) -> (kept: Vec<u128>)
    ensures
        kept@ == retained(history@, now, window),
{
    let mut kept: Vec<u128> = Vec::new();
    let ghost pred = |t: u128| in_window(t, now, window);
    let mut i: usize = 0;
    proof {
        reveal(Seq::filter);
        assert(history@.take(0) =~= Seq::<u128>::empty());
    }
    while i < history.len()
        invariant
            0 <= i <= history.len(),
            pred == (|t: u128| in_window(t, now, window)),
            kept@ == history@.take(i as int).filter(pred),
        decreases history.len() - i,
    {
        let t: u128 = history[i];
        proof {
            reveal(Seq::filter);
            assert(history@.take(i + 1).drop_last() =~= history@.take(i as int));
            assert(history@.take(i + 1).last() == t);
        }
        if now < window || t > now - window {
            kept.push(t);
        }
        i += 1;
    }
    proof {
        assert(history@.take(i as int) =~= history@);
    }
    kept
}

impl RateLimiter {
    /// The admissions on record, by client key.
    pub closed spec fn view(&self) -> Map<Seq<char>, Seq<u128>> {
        log_of(self.store@)
    }

    pub closed spec fn max_requests(&self) -> nat {
        self.max_requests as nat
    }

    pub closed spec fn window(&self) -> u128 {
        self.window
    }

    /// No key is stored twice, and no key has more admissions on record than
    /// the limit.
    pub closed spec fn wf(&self) -> bool {
        &&& distinct_keys(self.store@)
        &&& forall|i: int|
            0 <= i < self.store@.len() ==> (#[trigger] self.store@[i]).requests@.len()
                <= self.max_requests
    }

    /// A limiter that admits at most `max_requests` requests of one key in
    /// any trailing interval of `window` nanoseconds.
    pub fn new(max_requests: usize, window: u128) -> (limiter: RateLimiter)
        ensures
            limiter.wf(),
            limiter@ == Map::<Seq<char>, Seq<u128>>::empty(),
            limiter.max_requests() == max_requests,
            limiter.window() == window,
    {
        let limiter = RateLimiter { max_requests, window, epoch: clock_start(), store: Vec::new() };
        proof {
            assert(limiter@ =~= Map::<Seq<char>, Seq<u128>>::empty());
        }
        limiter
    }

    /// Decides a request of `key` made at time `now`.
    pub fn is_allowed_at(&mut self, key: &str, now: u128) -> (allowed: bool)
        requires
            old(self).wf(),
        ensures
            final(self).wf(),
            final(self).max_requests() == old(self).max_requests(),
            final(self).window() == old(self).window(),
            allowed == admits(old(self)@, key@, now, old(self).window(), old(self).max_requests()),
            final(self)@ == log_after(
                old(self)@,
                key@,
                now,
                old(self).window(),
                old(self).max_requests(),
            ),
    {
        let owned: String = key.to_owned();
        let mut i: usize = 0;
        while i < self.store.len() && self.store[i].key != owned
            invariant
                0 <= i <= self.store.len(),
                *self == *old(self),
                owned@ == key@,
                forall|j: int| 0 <= j < i ==> !holds_key(self.store@, j, key@),
            decreases self.store.len() - i,
        {
            i += 1;
        }
        broadcast use Seq::lemma_filter_len;
        if i < self.store.len() {
            proof {
                assert(holds_key(self.store@, i as int, key@));
                lemma_slot(self.store@, i as int, key@);
            }
            let mut kept = retain_recent(&self.store[i].requests, now, self.window);
            let allowed = kept.len() < self.max_requests;
            if allowed {
                kept.push(now);
            }
            let next = ClientState { key: owned, requests: kept };
            proof {
                lemma_log_update(self.store@, i as int, next);
            }
            self.store.set(i, next);
            allowed
        } else {
            proof {
                assert(!log_of(self.store@).contains_key(key@));
                assert(retained(Seq::<u128>::empty(), now, self.window) =~= Seq::<u128>::empty())
                    by {
                    reveal(Seq::filter);
                }
            }
            let mut kept: Vec<u128> = Vec::new();
            let allowed = 0 < self.max_requests;
            if allowed {
                kept.push(now);
            }
            let next = ClientState { key: owned, requests: kept };
            proof {
                lemma_log_push(self.store@, next);
            }
            self.store.push(next);
            allowed
        }
    }

    /// Decides a request of `key` made now, by the monotonic clock.
    pub fn is_allowed(&mut self, key: &str) -> (allowed: bool)
        requires
            old(self).wf(),
        ensures
            final(self).wf(),
            final(self).max_requests() == old(self).max_requests(),
            final(self).window() == old(self).window(),
            exists|now: u128|
                {
                    &&& allowed == #[trigger] admits(
                        old(self)@,
                        key@,
                        now,
                        old(self).window(),
                        old(self).max_requests(),
                    )
                    &&& final(self)@ == log_after(
                        old(self)@,
                        key@,
                        now,
                        old(self).window(),
                        old(self).max_requests(),
                    )
                },
    {
        let now: u128 = nanos_since(&self.epoch);
        let allowed = self.is_allowed_at(key, now);
        proof {
            assert(allowed == admits(
                old(self)@,
                key@,
                now,
                old(self).window(),
                old(self).max_requests(),
            ));
        }
        allowed
    }
}

/// The key a request is counted under: the authenticated user's id where
/// there is one, else the peer's address, else the word "unknown".
pub open spec fn client_key_of(user_id: Option<u128>, peer_ip: Option<Seq<char>>) -> Seq<char> {
    match user_id {
        Some(id) => uuid_text(id),
        None => match peer_ip {
            Some(ip) => ip,
            None => "unknown"@,
        },
    }
}

/// The text of a string that may be absent.
pub open spec fn text_of(s: Option<String>) -> Option<Seq<char>> {
    match s {
        Some(s) => Some(s@),
        None => None,
    }
}

pub fn client_key(user_id: Option<u128>, peer_ip: Option<String>) -> (key: String)
    ensures
        key@ == client_key_of(
            user_id,
            text_of(peer_ip),
        ),
{
    match user_id {
        Some(id) => uuid_to_text(id),
        None => match peer_ip {
            Some(ip) => ip,
            None => "unknown".to_owned(),
        },
    }
}

/// What the dispatcher does with a request after the admission check.
#[derive(Clone, Copy, Debug, PartialEq, Eq, Structural)]
pub enum Admission {
    /// Hand the request on to the wrapped service.
    Forward,
    /// Answer with status 429 and the rejection body.
    TooManyRequests,
}

pub open spec fn admission_of(allowed: bool) -> Admission {
    if allowed {
        Admission::Forward
    } else {
        Admission::TooManyRequests
    }
}

/// The status code of a rejected request.
pub fn rejection_status() -> (code: u16)
    ensures
        code == 429,
{
    429
}

/// The text under the field "error" in the body of a rejected request.
pub fn rejection_message() -> (text: String)
    ensures
        text@ == "Rate limit execeeded. Please try again later"@,
{
    "Rate limit execeeded. Please try again later".to_owned()
}

/// The admission check in front of a service.
pub struct RateLimiterMiddleware {
    limiter: RateLimiter,
}

impl RateLimiterMiddleware {
    pub closed spec fn limiter(&self) -> RateLimiter {
        self.limiter
    }

    pub fn new(limiter: RateLimiter) -> (middleware: RateLimiterMiddleware)
        ensures
            middleware.limiter() == limiter,
    {
        RateLimiterMiddleware { limiter }
    }

    /// Decides a request that arrives at time `now`.
    pub fn call_at(&mut self, user_id: Option<u128>, peer_ip: Option<String>, now: u128) -> (outcome:
        Admission)
        requires
            old(self).limiter().wf(),
        ensures
            final(self).limiter().wf(),
            final(self).limiter().max_requests() == old(self).limiter().max_requests(),
            final(self).limiter().window() == old(self).limiter().window(),
            outcome == admission_of(
                admits(
                    old(self).limiter()@,
                    client_key_of(
                        user_id,
                        text_of(peer_ip),
                    ),
                    now,
                    old(self).limiter().window(),
                    old(self).limiter().max_requests(),
                ),
            ),
            final(self).limiter()@ == log_after(
                old(self).limiter()@,
                client_key_of(
                    user_id,
                    text_of(peer_ip),
                ),
                now,
                old(self).limiter().window(),
                old(self).limiter().max_requests(),
            ),
    {
        let key = client_key(user_id, peer_ip);
        if self.limiter.is_allowed_at(key.as_str(), now) {
            Admission::Forward
        } else {
            Admission::TooManyRequests
        }
    }

    /// Decides a request that arrives now: it is counted under its client
    /// key, and forwarded exactly when the limiter admits it.
    pub fn call(&mut self, user_id: Option<u128>, peer_ip: Option<String>) -> (outcome: Admission)
        requires
            old(self).limiter().wf(),
        ensures
            final(self).limiter().wf(),
            final(self).limiter().max_requests() == old(self).limiter().max_requests(),
            final(self).limiter().window() == old(self).limiter().window(),
            exists|now: u128|
                {
                    &&& outcome == admission_of(
                        #[trigger] admits(
                            old(self).limiter()@,
                            client_key_of(
                                user_id,
                                text_of(peer_ip),
                            ),
                            now,
                            old(self).limiter().window(),
                            old(self).limiter().max_requests(),
                        ),
                    )
                    &&& final(self).limiter()@ == log_after(
                        old(self).limiter()@,
                        client_key_of(
                            user_id,
                            text_of(peer_ip),
                        ),
                        now,
                        old(self).limiter().window(),
                        old(self).limiter().max_requests(),
                    )
                },
    {
        let key = client_key(user_id, peer_ip);
        if self.limiter.is_allowed(key.as_str()) {
            Admission::Forward
        } else {
            Admission::TooManyRequests
        }
    }
}

proof fn lemma_retained_all(history: Seq<u128>, now: u128, window: u128)
    requires
        forall|i: int| 0 <= i < history.len() ==> in_window(#[trigger] history[i], now, window),
    ensures
        retained(history, now, window) == history,
    decreases history.len(),
{
    reveal(Seq::filter);
    if history.len() > 0 {
        lemma_retained_all(history.drop_last(), now, window);
        assert(history.drop_last().push(history.last()) =~= history);
    }
}

proof fn lemma_retained_none(history: Seq<u128>, now: u128, window: u128)
    requires
        forall|i: int| 0 <= i < history.len() ==> !in_window(#[trigger] history[i], now, window),
    ensures
        retained(history, now, window) == Seq::<u128>::empty(),
    decreases history.len(),
{
    reveal(Seq::filter);
    if history.len() > 0 {
        lemma_retained_none(history.drop_last(), now, window);
    }
}

/// Keys are independent: a request of one key leaves the history of every
/// other key as it was, and with it every later decision on that key.
pub proof fn lemma_keys_independent(
    log: Map<Seq<char>, Seq<u128>>,
    a: Seq<char>,
    b: Seq<char>,
    now: u128,
    later: u128,
    window: u128,
    max_requests: nat,
)
    requires
        a != b,
    ensures
        history_of(log_after(log, a, now, window, max_requests), b) == history_of(log, b),
        admits(log_after(log, a, now, window, max_requests), b, later, window, max_requests)
            == admits(log, b, later, window, max_requests),
{
}

/// A key with fewer admissions on record than the limit is admitted at any
/// time.
pub proof fn lemma_admitted_below_limit(
    log: Map<Seq<char>, Seq<u128>>,
    key: Seq<char>,
    now: u128,
    window: u128,
    max_requests: nat,
)
    requires
        history_of(log, key).len() < max_requests,
    ensures
        admits(log, key, now, window, max_requests),
        history_of(log_after(log, key, now, window, max_requests), key) == retained(
            history_of(log, key),
            now,
            window,
        ).push(now),
{
    broadcast use Seq::lemma_filter_len;
}

/// A key whose admissions on record all lie inside the window, and number at
/// least the limit, is denied, and its history stays as it is.
pub proof fn lemma_denied_at_limit(
    log: Map<Seq<char>, Seq<u128>>,
    key: Seq<char>,
    now: u128,
    window: u128,
    max_requests: nat,
)
    requires
        history_of(log, key).len() >= max_requests,
        forall|i: int|
            0 <= i < history_of(log, key).len() ==> in_window(
                #[trigger] history_of(log, key)[i],
                now,
                window,
            ),
    ensures
        !admits(log, key, now, window, max_requests),
        history_of(log_after(log, key, now, window, max_requests), key) == history_of(log, key),
{
    lemma_retained_all(history_of(log, key), now, window);
}

/// Once every admission on record is a full window old, the key is admitted
/// again (where the limit is not zero), and only the new admission stays on
/// record. An admission exactly one window old no longer counts.
pub proof fn lemma_admitted_after_window(
    log: Map<Seq<char>, Seq<u128>>,
    key: Seq<char>,
    now: u128,
    window: u128,
    max_requests: nat,
)
    requires
        max_requests > 0,
        forall|i: int|
            0 <= i < history_of(log, key).len() ==> (#[trigger] history_of(log, key)[i]) + window
                <= now,
    ensures
        admits(log, key, now, window, max_requests),
        history_of(log_after(log, key, now, window, max_requests), key) == seq![now],
{
    lemma_retained_none(history_of(log, key), now, window);
    assert(Seq::<u128>::empty().push(now) =~= seq![now]);
}

impl RateLimiter {
    /// In a well-formed limiter no key has more admissions on record than the
    /// limit.
    pub proof fn lemma_history_bounded(&self, key: Seq<char>)
        requires
            self.wf(),
        ensures
            history_of(self@, key).len() <= self.max_requests(),
    {
        if self@.contains_key(key) {
            let i = choose|i: int| holds_key(self.store@, i, key);
            lemma_slot(self.store@, i, key);
        }
    }
}

/// Admissions in the order in which they were made.
pub open spec fn ordered(history: Seq<u128>) -> bool {
    forall|i: int, j: int| 0 <= i <= j < history.len() ==> history[i] <= history[j]
}

/// No admission of `history` was made after `now`.
pub open spec fn none_after(history: Seq<u128>, now: u128) -> bool {
    forall|i: int| 0 <= i < history.len() ==> #[trigger] history[i] <= now
}

proof fn lemma_retained_bounded(history: Seq<u128>, now: u128, window: u128, bound: u128)
    requires
        none_after(history, bound),
    ensures
        none_after(retained(history, now, window), bound),
    decreases history.len(),
{
    reveal(Seq::filter);
    if history.len() > 0 {
        let front = history.drop_last();
        assert forall|i: int| 0 <= i < front.len() implies #[trigger] front[i] <= bound by {
            assert(front[i] == history[i]);
        }
        lemma_retained_bounded(front, now, window, bound);
    }
}

proof fn lemma_retained_ordered(history: Seq<u128>, now: u128, window: u128)
    requires
        ordered(history),
    ensures
        ordered(retained(history, now, window)),
    decreases history.len(),
{
    reveal(Seq::filter);
    if history.len() > 0 {
        let front = history.drop_last();
        assert forall|i: int, j: int| 0 <= i <= j < front.len() implies front[i] <= front[j] by {
            assert(front[i] == history[i] && front[j] == history[j]);
        }
        assert forall|i: int| 0 <= i < front.len() implies #[trigger] front[i]
            <= history.last() by {
            assert(front[i] == history[i]);
        }
        lemma_retained_ordered(front, now, window);
        lemma_retained_bounded(front, now, window, history.last());
    }
}

/// While the clock does not run backwards, the history of a key stays in the
/// order of its admissions: a history that is ordered and holds nothing later
/// than `now` is so again after a request at `now`.
pub proof fn lemma_history_stays_ordered(
    log: Map<Seq<char>, Seq<u128>>,
    key: Seq<char>,
    now: u128,
    window: u128,
    max_requests: nat,
)
    requires
        ordered(history_of(log, key)),
        none_after(history_of(log, key), now),
    ensures
        ordered(history_of(log_after(log, key, now, window, max_requests), key)),
        none_after(history_of(log_after(log, key, now, window, max_requests), key), now),
{
    lemma_retained_ordered(history_of(log, key), now, window);
    lemma_retained_bounded(history_of(log, key), now, window, now);
}

/// After a request at `now`, at most `max_requests` admissions of its key lie
/// in the window that ends at `now`, whatever the log held before.
pub proof fn lemma_window_never_overfull(
    log: Map<Seq<char>, Seq<u128>>,
    key: Seq<char>,
    now: u128,
    window: u128,
    max_requests: nat,
)
    requires
        history_of(log, key).len() <= max_requests,
    ensures
        history_of(log_after(log, key, now, window, max_requests), key).len() <= max_requests,
{
    broadcast use Seq::lemma_filter_len;
}

} // verus!
