//! Per-client request rate limiting over a sliding one-minute window.

use vstd::prelude::*;
use std::time::Instant;
use crate::error::{ApiError, ErrorCode};

verus! {

broadcast use vstd::seq_lib::group_seq_properties;

/// `std::time::Instant`, carried opaquely: the limiter keeps the instant it
/// was made at and measures request times from it.
#[verifier::external_type_specification]
#[verifier::external_body]
pub struct ExInstant(Instant);

/// At most this many requests of one client are admitted per window.
pub const REQUEST_LIMIT: usize = 10;

/// The window's length: one minute, in nanoseconds.
pub const WINDOW_NANOS: u64 = 60000000000;

/// A request made at `t` still counts at `now` (time running backwards
/// counts as no time passed).
pub open spec fn in_window(t: u64, now: u64) -> bool {
    (if now >= t {
        now - t
    } else {
        0
    }) < WINDOW_NANOS
}

/// The requests of `hits` that still count at `now`, in order.
pub open spec fn recent(hits: Seq<u64>, now: u64) -> Seq<u64> {
    hits.filter(|t: u64| in_window(t, now))
}

/// The log with what no longer counts at `now` dropped, and clients left
/// with nothing dropped too.
pub open spec fn pruned(m: Map<Seq<char>, Seq<u64>>, now: u64) -> Map<Seq<char>, Seq<u64>> {
    Map::new(
        |k: Seq<char>| m.contains_key(k) && recent(m[k], now).len() > 0,
        |k: Seq<char>| recent(m[k], now),
    )
}

/// The requests of `client` that still count at `now`.
pub open spec fn recent_hits(m: Map<Seq<char>, Seq<u64>>, client: Seq<char>, now: u64) -> Seq<u64> {
    if m.contains_key(client) {
        recent(m[client], now)
    } else {
        seq![]
    }
}

/// A request of `client` at `now` is admitted: fewer than the limit of its
/// requests still count.
pub open spec fn admits(m: Map<Seq<char>, Seq<u64>>, client: Seq<char>, now: u64) -> bool {
    recent_hits(m, client, now).len() < REQUEST_LIMIT
}

/// The log after a request of `client` at `now`: pruned, and the request
/// recorded if it was admitted.
pub open spec fn after_request(m: Map<Seq<char>, Seq<u64>>, client: Seq<char>, now: u64) -> Map<
    Seq<char>,
    Seq<u64>,
> {
    if admits(m, client, now) {
        pruned(m, now).insert(client, recent_hits(m, client, now).push(now))
    } else {
        pruned(m, now)
    }
}

/// The admitted requests of one client that still count.
struct ClientLog {
    client: String,
    hits: Vec<u64>,
}

/// Counts each client's recent requests and refuses those over the limit.
pub struct RateLimiter {
    origin: Instant,
    counts: Counts,
}

/// What a limiter has counted: the clients' logs, the latest request time,
/// and every request it was asked about.
struct Counts {
    clients: Vec<ClientLog>,
    latest: u64,
    history: Ghost<Seq<(Seq<char>, u64)>>,
}

/// The time a request is counted at: when it was made, or the latest time
/// already counted should the clock read earlier.
pub open spec fn request_time(latest: u64, now: u64) -> u64 {
    if now >= latest {
        now
    } else {
        latest
    }
}

/// The time of the last request of `h`, or 0.
pub open spec fn last_time(h: Seq<(Seq<char>, u64)>) -> u64 {
    if h.len() == 0 {
        0
    } else {
        h.last().1
    }
}

/// Every client in the log has at least one and at most the limit of
/// requests that count.
pub open spec fn logs_within_limit(m: Map<Seq<char>, Seq<u64>>) -> bool {
    forall|k: Seq<char>| m.contains_key(k) ==> 0 < (#[trigger] m[k]).len() && m[k].len() <= REQUEST_LIMIT
}

spec fn has_client(s: Seq<ClientLog>, k: Seq<char>) -> bool {
    exists|i: int| 0 <= i < s.len() && (#[trigger] s[i]).client@ == k
}

spec fn client_index(s: Seq<ClientLog>, k: Seq<char>) -> int {
    choose|i: int| 0 <= i < s.len() && (#[trigger] s[i]).client@ == k
}

spec fn distinct_clients(s: Seq<ClientLog>) -> bool {
    forall|i: int, j: int|
        0 <= i < s.len() && 0 <= j < s.len() && i != j ==> (#[trigger] s[i]).client@ != (
        #[trigger] s[j]).client@
}

spec fn clients_view(s: Seq<ClientLog>) -> Map<Seq<char>, Seq<u64>> {
    Map::new(|k: Seq<char>| has_client(s, k), |k: Seq<char>| s[client_index(s, k)].hits@)
}

/// Every kept log holds at least one and at most the limit of requests.
spec fn logs_bounded(s: Seq<ClientLog>) -> bool {
    forall|i: int|
        0 <= i < s.len() ==> 0 < (#[trigger] s[i]).hits@.len() && s[i].hits@.len() <= REQUEST_LIMIT
}

impl View for RateLimiter {
    type V = Map<Seq<char>, Seq<u64>>;

    closed spec fn view(&self) -> Map<Seq<char>, Seq<u64>> {
        clients_view(self.counts.clients@)
    }
}

impl RateLimiter {
    /// Every request the limiter was asked about, in order, with the time it
    /// was counted at.
    pub closed spec fn history(&self) -> Seq<(Seq<char>, u64)> {
        self.counts.history@
    }

    /// The latest time a request was counted at.
    pub closed spec fn latest_time(&self) -> u64 {
        self.counts.latest
    }

    /// What every limiter keeps: its log is what its requests leave on a fresh
    /// limiter, they came in time order, the latest time is the last one's,
    /// and every client's log holds one to the limit of requests.
    pub open spec fn well_kept(&self) -> bool {
        &&& self@ == replay(Map::empty(), self.history())
        &&& times_ordered(self.history())
        &&& self.latest_time() == last_time(self.history())
        &&& logs_within_limit(self@)
    }
}

proof fn lemma_view_within_limit(s: Seq<ClientLog>)
    requires
        logs_bounded(s),
    ensures
        logs_within_limit(clients_view(s)),
{
    assert forall|k: Seq<char>| clients_view(s).contains_key(k) implies 0 < (
    #[trigger] clients_view(s)[k]).len() && clients_view(s)[k].len() <= REQUEST_LIMIT by {
        let i = client_index(s, k);
        assert(0 <= i < s.len());
    }
}

proof fn lemma_client_at(s: Seq<ClientLog>, i: int)
    requires
        distinct_clients(s),
        0 <= i < s.len(),
    ensures
        clients_view(s).contains_key(s[i].client@),
        clients_view(s)[s[i].client@] == s[i].hits@,
{
    let k = s[i].client@;
    assert(has_client(s, k));
    let j = client_index(s, k);
    assert(0 <= j < s.len() && s[j].client@ == k);
}

proof fn lemma_push_client(s: Seq<ClientLog>, e: ClientLog)
    requires
        distinct_clients(s),
        !clients_view(s).contains_key(e.client@),
    ensures
        distinct_clients(s.push(e)),
        clients_view(s.push(e)) == clients_view(s).insert(e.client@, e.hits@),
{
    let t = s.push(e);
    assert forall|i: int| 0 <= i < s.len() implies (#[trigger] s[i]).client@ != e.client@ by {
        assert(has_client(s, s[i].client@));
    }
    assert(distinct_clients(t));
    assert forall|k: Seq<char>| #[trigger]
        clients_view(t).contains_key(k) == clients_view(s).insert(e.client@, e.hits@).contains_key(
            k,
        ) by {
        if has_client(t, k) && k != e.client@ {
            let i = choose|i: int| 0 <= i < t.len() && (#[trigger] t[i]).client@ == k;
            assert(i < s.len() && s[i].client@ == k);
        }
        if has_client(s, k) {
            let i = choose|i: int| 0 <= i < s.len() && (#[trigger] s[i]).client@ == k;
            assert(t[i].client@ == k);
        }
        if k == e.client@ {
            assert(t[s.len() as int].client@ == k);
        }
    }
    assert forall|k: Seq<char>| clients_view(t).contains_key(k) implies #[trigger] clients_view(
        t,
    )[k] == clients_view(s).insert(e.client@, e.hits@)[k] by {
        let i = choose|i: int| 0 <= i < t.len() && (#[trigger] t[i]).client@ == k;
        lemma_client_at(t, i);
        if i < s.len() {
            lemma_client_at(s, i);
        }
    }
    assert(clients_view(t) =~= clients_view(s).insert(e.client@, e.hits@));
}

proof fn lemma_remove_client(s: Seq<ClientLog>, j: int)
    requires
        distinct_clients(s),
        0 <= j < s.len(),
    ensures
        distinct_clients(s.remove(j)),
        clients_view(s.remove(j)) == clients_view(s).remove(s[j].client@),
{
    let t = s.remove(j);
    let kj = s[j].client@;
    assert forall|a: int, b: int|
        0 <= a < t.len() && 0 <= b < t.len() && a != b implies (#[trigger] t[a]).client@ != (
        #[trigger] t[b]).client@ by {
        let a2 = if a < j {
            a
        } else {
            a + 1
        };
        let b2 = if b < j {
            b
        } else {
            b + 1
        };
        assert(t[a] == s[a2] && t[b] == s[b2]);
    }
    assert forall|k: Seq<char>| #[trigger]
        clients_view(t).contains_key(k) == clients_view(s).remove(kj).contains_key(k) by {
        if has_client(t, k) {
            let i = choose|i: int| 0 <= i < t.len() && (#[trigger] t[i]).client@ == k;
            let i2 = if i < j {
                i
            } else {
                i + 1
            };
            assert(s[i2].client@ == k);
            assert(i2 != j);
        }
        if has_client(s, k) && k != kj {
            let i = choose|i: int| 0 <= i < s.len() && (#[trigger] s[i]).client@ == k;
            assert(i != j);
            let i2 = if i < j {
                i
            } else {
                i - 1
            };
            assert(t[i2].client@ == k);
        }
    }
    assert forall|k: Seq<char>| clients_view(t).contains_key(k) implies #[trigger] clients_view(
        t,
    )[k] == clients_view(s).remove(kj)[k] by {
        let i = choose|i: int| 0 <= i < t.len() && (#[trigger] t[i]).client@ == k;
        lemma_client_at(t, i);
        let i2 = if i < j {
            i
        } else {
            i + 1
        };
        assert(t[i] == s[i2]);
        lemma_client_at(s, i2);
    }
    assert(clients_view(t) =~= clients_view(s).remove(kj));
}

/// `std::time::Instant::now`. Nothing is claimed of the instant: it is the
/// clock's.
#[verifier::external_body]
fn clock_now() -> Instant {
    Instant::now()
}

/// `Instant::elapsed` of `origin`, as whole nanoseconds (`Duration::as_nanos`,
/// kept to 64 bits). Nothing is claimed of the value: it is the clock's.
#[verifier::external_body]
fn nanos_since(origin: &Instant) -> u64 {
    origin.elapsed().as_nanos() as u64
}

/// The requests of `hits` that still count at `now`.
fn recent_of(hits: &Vec<u64>, now: u64) -> (r: Vec<u64>)
    ensures
        r@ == recent(hits@, now),
{
    let mut r: Vec<u64> = Vec::new();
    let n = hits.len();
    for i in 0..n
        invariant
            n == hits@.len(),
            r@ == recent(hits@.take(i as int), now),
    {
        proof {
            reveal_with_fuel(Seq::filter, 1);
            assert(hits@.take(i + 1).drop_last() =~= hits@.take(i as int));
        }
        let t = hits[i];
        let age = if now >= t {
            now - t
        } else {
            0
        };
        if age < WINDOW_NANOS {
            r.push(t);
        }
    }
    assert(hits@.take(n as int) =~= hits@);
    r
}

/// The logs after a request of `ip` at `now`, and whether it was admitted.
fn count_request(clients: &Vec<ClientLog>, ip: String, now: u64) -> (r: (Vec<ClientLog>, bool))
    requires
        distinct_clients(clients@),
        logs_bounded(clients@),
    ensures
        distinct_clients(r.0@),
        logs_bounded(r.0@),
        r.1 == admits(clients_view(clients@), ip@, now),
        clients_view(r.0@) == after_request(clients_view(clients@), ip@, now),
{
    let ghost old_view = clients_view(clients@);
    let mut kept: Vec<ClientLog> = Vec::new();
    let n = clients.len();
    for i in 0..n
        invariant
            n == clients@.len(),
            distinct_clients(clients@),
            logs_bounded(clients@),
            distinct_clients(kept@),
            logs_bounded(kept@),
            clients_view(kept@) == pruned(clients_view(clients@.take(i as int)), now),
    {
        let ghost prefix = clients@.take(i as int);
        let ghost entry = clients@[i as int];
        proof {
            assert(clients@.take(i + 1) =~= prefix.push(entry));
            assert forall|a: int, b: int|
                0 <= a < prefix.len() && 0 <= b < prefix.len() && a != b implies (
                #[trigger] prefix[a]).client@ != (#[trigger] prefix[b]).client@ by {
                assert(prefix[a] == clients@[a] && prefix[b] == clients@[b]);
            }
            if clients_view(prefix).contains_key(entry.client@) {
                let j = choose|j: int|
                    0 <= j < prefix.len() && (#[trigger] prefix[j]).client@ == entry.client@;
                assert(prefix[j] == clients@[j]);
            }
            lemma_push_client(prefix, entry);
        }
        let hits = recent_of(&clients[i].hits, now);
        if hits.len() > 0 {
            let log = ClientLog { client: clients[i].client.clone(), hits };
            proof {
                lemma_push_client(kept@, log);
                assert forall|j: int| 0 <= j < kept@.push(log).len() implies 0 < (
                #[trigger] kept@.push(log)[j]).hits@.len() && kept@.push(log)[j].hits@.len()
                    <= REQUEST_LIMIT by {
                    if j == kept@.len() {
                        entry.hits@.lemma_filter_len(|t: u64| in_window(t, now));
                    }
                }
            }
            kept.push(log);
        }
        proof {
            assert(pruned(clients_view(clients@.take(i + 1)), now) =~= if recent(
                entry.hits@,
                now,
            ).len() > 0 {
                pruned(clients_view(prefix), now).insert(
                    entry.client@,
                    recent(entry.hits@, now),
                )
            } else {
                pruned(clients_view(prefix), now)
            });
        }
    }
    proof {
        assert(clients@.take(n as int) =~= clients@);
    }
    assert(clients_view(kept@) == pruned(old_view, now));
    let mut found: Option<usize> = None;
    let m = kept.len();
    for j in 0..m
        invariant
            m == kept@.len(),
            found matches Some(f) ==> f < m && kept@[f as int].client@ == ip@,
            found is None ==> forall|x: int| 0 <= x < j ==> (#[trigger] kept@[x]).client@ != ip@,
    {
        if found.is_none() && kept[j].client == ip {
            found = Some(j);
        }
    }
    match found {
        Some(j) => {
            proof {
                lemma_client_at(kept@, j as int);
                assert(pruned(old_view, now).contains_key(ip@));
                assert(recent_hits(old_view, ip@, now) == kept@[j as int].hits@);
            }
            if kept[j].hits.len() >= REQUEST_LIMIT {
                return (kept, false);
            }
            let ghost before = kept@;
            let mut log = kept.remove(j);
            log.hits.push(now);
            proof {
                lemma_remove_client(before, j as int);
                lemma_push_client(kept@, log);
            }
            kept.push(log);
            proof {
                assert(clients_view(kept@) =~= after_request(old_view, ip@, now));
                assert forall|x: int| 0 <= x < kept@.len() implies 0 < (
                #[trigger] kept@[x]).hits@.len() && kept@[x].hits@.len() <= REQUEST_LIMIT by {
                    if x < kept@.len() - 1 {
                        let x2 = if x < j {
                            x
                        } else {
                            x + 1
                        };
                        assert(kept@[x] == before[x2]);
                    }
                }
            }
            (kept, true)
        },
        None => {
            proof {
                if has_client(kept@, ip@) {
                    let x = choose|x: int| 0 <= x < kept@.len() && (#[trigger] kept@[x]).client@ == ip@;
                }
                assert(!pruned(old_view, now).contains_key(ip@));
                assert(recent_hits(old_view, ip@, now) =~= Seq::<u64>::empty());
            }
            let mut hits: Vec<u64> = Vec::new();
            hits.push(now);
            let log = ClientLog { client: ip, hits };
            proof {
                lemma_push_client(kept@, log);
            }
            kept.push(log);
            proof {
                assert(clients_view(kept@) =~= after_request(old_view, ip@, now));
            }
            (kept, true)
        },
    }
}

impl RateLimiter {
    #[verifier::type_invariant]
    spec fn wf(self) -> bool {
        &&& distinct_clients(self.counts.clients@)
        &&& logs_bounded(self.counts.clients@)
        &&& clients_view(self.counts.clients@) == replay(Map::empty(), self.counts.history@)
        &&& times_ordered(self.counts.history@)
        &&& self.counts.latest == last_time(self.counts.history@)
    }

    /// A limiter that has seen no request.
    pub fn new() -> (r: Self)
        ensures
            r@ == Map::<Seq<char>, Seq<u64>>::empty(),
            r.history() == Seq::<(Seq<char>, u64)>::empty(),
            r.latest_time() == 0,
            r.well_kept(),
    {
        let counts = Counts { clients: Vec::new(), latest: 0, history: Ghost(Seq::empty()) };
        assert(clients_view(counts.clients@) =~= Map::<Seq<char>, Seq<u64>>::empty());
        RateLimiter { origin: clock_now(), counts }
    }

    /// Decides a request of `ip` made `now` nanoseconds after the limiter was
    /// made (or at the latest time already seen, should `now` be earlier), and
    /// records it if admitted.
    pub fn check_rate_limit_at(&mut self, ip: String, now: u64) -> (admitted: bool)
        ensures
            admitted == admits(old(self)@, ip@, request_time(old(self).latest_time(), now)),
            final(self)@ == after_request(
                old(self)@,
                ip@,
                request_time(old(self).latest_time(), now),
            ),
            final(self).history() == old(self).history().push(
                (ip@, request_time(old(self).latest_time(), now)),
            ),
            final(self).latest_time() == request_time(old(self).latest_time(), now),
            final(self).well_kept(),
    {
        proof {
            use_type_invariant(&*self);
        }
        let t = if now >= self.counts.latest {
            now
        } else {
            self.counts.latest
        };
        let ghost key = ip@;
        let ghost h = self.counts.history@;
        let (kept, admitted) = count_request(&self.counts.clients, ip, t);
        proof {
            assert(h.push((key, t)).drop_last() =~= h);
            assert forall|i: int, j: int| 0 <= i <= j < h.push((key, t)).len() implies h.push(
                (key, t),
            )[i].1 <= h.push((key, t))[j].1 by {
                if j == h.len() && i < h.len() {
                    assert(h[i].1 <= h[h.len() - 1].1);
                }
            }
            lemma_view_within_limit(kept@);
        }
        self.counts = Counts { clients: kept, latest: t, history: Ghost(h.push((key, t))) };
        admitted
    }

    /// Decides a request of `ip` made now, and records it if admitted.
    pub fn check_rate_limit(&mut self, ip: String) -> (admitted: bool)
        ensures
            exists|now: u64|
                {
                    &&& now >= old(self).latest_time()
                    &&& admitted == admits(old(self)@, ip@, now)
                    &&& final(self)@ == after_request(old(self)@, ip@, now)
                    &&& final(self).history() == old(self).history().push((ip@, now))
                    &&& final(self).latest_time() == now
                },
            final(self).well_kept(),
    {
        let now = nanos_since(&self.origin);
        let ghost latest = self.latest_time();
        let admitted = self.check_rate_limit_at(ip, now);
        assert(request_time(latest, now) >= latest);
        admitted
    }
}


/// The key under which a client is counted: its address, or `unknown`.
pub open spec fn client_key(client_addr: Option<String>) -> Seq<char> {
    match client_addr {
        Some(a) => a@,
        None => "unknown"@,
    }
}

/// The message of a refused request.
pub open spec fn rate_limit_message() -> Seq<char> {
    "Rate limit exceeded. Max 10 requests per minute."@
}

/// Counts a request of the client at `client_addr` (`unknown` when the
/// address is not known) and answers `RATE_LIMIT_EXCEEDED` when refused.
pub fn verify_rate_limit(limiter: &mut RateLimiter, client_addr: Option<String>) -> (r: Result<
    (),
    ApiError,
>)
    ensures
        exists|now: u64|
            {
                &&& (r is Ok) == admits(old(limiter)@, client_key(client_addr), now)
                &&& final(limiter)@ == after_request(old(limiter)@, client_key(client_addr), now)
            },
        r matches Err(e) ==> e.code == ErrorCode::RateLimitExceeded && e.message@
            == rate_limit_message(),
{
    let ip = match client_addr {
        Some(a) => a,
        None => "unknown".to_owned(),
    };
    let ghost key = ip@;
    assert(key == client_key(client_addr));
    let admitted = limiter.check_rate_limit(ip);
    proof {
        let w = choose|now: u64|
            {
                &&& admitted == admits(old(limiter)@, key, now)
                &&& limiter@ == after_request(old(limiter)@, key, now)
            };
        assert(admitted == admits(old(limiter)@, key, w));
    }
    if admitted {
        Ok(())
    } else {
        Err(
            ApiError {
                code: ErrorCode::RateLimitExceeded,
                message: "Rate limit exceeded. Max 10 requests per minute.".to_owned(),
            },
        )
    }
}

/// Whether one client's request is admitted depends on that client's own
/// requests alone.
pub proof fn law_clients_are_independent(
    m1: Map<Seq<char>, Seq<u64>>,
    m2: Map<Seq<char>, Seq<u64>>,
    client: Seq<char>,
    now: u64,
)
    requires
        m1.contains_key(client) == m2.contains_key(client),
        m1.contains_key(client) ==> m1[client] == m2[client],
    ensures
        admits(m1, client, now) == admits(m2, client, now),
{
}

/// A request leaves every other client's log as pruning leaves it.
pub proof fn law_others_only_pruned(
    m: Map<Seq<char>, Seq<u64>>,
    client: Seq<char>,
    other: Seq<char>,
    now: u64,
)
    requires
        other != client,
    ensures
        after_request(m, client, now).contains_key(other) == pruned(m, now).contains_key(other),
        after_request(m, client, now).contains_key(other) ==> after_request(m, client, now)[other]
            == recent(m[other], now),
{
}

/// A refused request is not recorded.
pub proof fn law_refusal_not_recorded(m: Map<Seq<char>, Seq<u64>>, client: Seq<char>, now: u64)
    requires
        !admits(m, client, now),
    ensures
        after_request(m, client, now) == pruned(m, now),
{
}

/// An admitted request is recorded after the client's requests that still
/// count.
pub proof fn law_admission_recorded(m: Map<Seq<char>, Seq<u64>>, client: Seq<char>, now: u64)
    requires
        admits(m, client, now),
    ensures
        after_request(m, client, now).contains_key(client),
        after_request(m, client, now)[client] == recent_hits(m, client, now).push(now),
{
}

/// Once the limit of a client's requests counts, the next one is refused.
pub proof fn law_limit_refuses(m: Map<Seq<char>, Seq<u64>>, client: Seq<char>, now: u64)
    requires
        m.contains_key(client),
        recent(m[client], now).len() >= REQUEST_LIMIT,
    ensures
        !admits(m, client, now),
{
}

/// No client's log ever holds more than the limit.
pub proof fn law_logs_stay_bounded(m: Map<Seq<char>, Seq<u64>>, client: Seq<char>, now: u64)
    requires
        forall|k: Seq<char>| m.contains_key(k) ==> (#[trigger] m[k]).len() <= REQUEST_LIMIT,
    ensures
        forall|k: Seq<char>|
            after_request(m, client, now).contains_key(k) ==> (#[trigger] after_request(
                m,
                client,
                now,
            )[k]).len() <= REQUEST_LIMIT,
{
    assert forall|k: Seq<char>| after_request(m, client, now).contains_key(k) implies (
    #[trigger] after_request(m, client, now)[k]).len() <= REQUEST_LIMIT by {
        if m.contains_key(k) {
            m[k].lemma_filter_len(|t: u64| in_window(t, now));
        }
    }
}


/// The log after requests `(client, time)` were made in turn, from `m`.
pub open spec fn replay(m: Map<Seq<char>, Seq<u64>>, reqs: Seq<(Seq<char>, u64)>) -> Map<
    Seq<char>,
    Seq<u64>,
>
    decreases reqs.len(),
{
    if reqs.len() == 0 {
        m
    } else {
        after_request(replay(m, reqs.drop_last()), reqs.last().0, reqs.last().1)
    }
}

/// The times of `client`'s requests admitted among the first `n` of `reqs`,
/// made in turn on a fresh limiter.
pub open spec fn admitted_times(reqs: Seq<(Seq<char>, u64)>, client: Seq<char>, n: int) -> Seq<u64>
    decreases n,
{
    if n <= 0 || n > reqs.len() {
        seq![]
    } else {
        let prev = admitted_times(reqs, client, n - 1);
        let r = reqs[n - 1];
        if r.0 == client && admits(replay(Map::empty(), reqs.take(n - 1)), r.0, r.1) {
            prev.push(r.1)
        } else {
            prev
        }
    }
}

/// The times of `times` that fall in the minute starting at `start`.
pub open spec fn in_span(times: Seq<u64>, start: int) -> Seq<u64> {
    times.filter(|t: u64| start <= t && t < start + WINDOW_NANOS)
}

/// The requests come in the order of their times.
pub open spec fn times_ordered(reqs: Seq<(Seq<char>, u64)>) -> bool {
    forall|i: int, j: int| 0 <= i <= j < reqs.len() ==> reqs[i].1 <= reqs[j].1
}

/// Every time of `s` is at most `b`.
pub open spec fn all_at_most(s: Seq<u64>, b: u64) -> bool {
    forall|i: int| 0 <= i < s.len() ==> s[i] <= b
}

proof fn lemma_recent_push(s: Seq<u64>, x: u64, now: u64)
    ensures
        recent(s.push(x), now) == if in_window(x, now) {
            recent(s, now).push(x)
        } else {
            recent(s, now)
        },
{
    reveal_with_fuel(Seq::filter, 1);
    assert(s.push(x).drop_last() =~= s);
}

proof fn lemma_recent_bound(s: Seq<u64>, now: u64, b: u64)
    requires
        all_at_most(s, b),
    ensures
        all_at_most(recent(s, now), b),
    decreases s.len(),
{
    reveal_with_fuel(Seq::filter, 1);
    if s.len() > 0 {
        lemma_recent_bound(s.drop_last(), now, b);
    }
}

/// Pruning at `t1` and then looking at a later `now` sees what looking at
/// `now` alone sees.
proof fn lemma_recent_twice(s: Seq<u64>, t1: u64, now: u64)
    requires
        all_at_most(s, t1),
        t1 <= now,
    ensures
        recent(recent(s, t1), now) == recent(s, now),
    decreases s.len(),
{
    reveal_with_fuel(Seq::filter, 1);
    if s.len() > 0 {
        let rest = s.drop_last();
        lemma_recent_twice(rest, t1, now);
        let x = s.last();
        if in_window(x, t1) {
            lemma_recent_push(recent(rest, t1), x, now);
        }
    }
}

/// Counting the times in a minute up to `now` counts no more than the
/// requests that still count at `now`.
proof fn lemma_span_within_recent(s: Seq<u64>, start: int, now: u64)
    requires
        all_at_most(s, now),
        start + WINDOW_NANOS > now,
    ensures
        in_span(s, start).len() <= recent(s, now).len(),
    decreases s.len(),
{
    reveal_with_fuel(Seq::filter, 1);
    if s.len() > 0 {
        lemma_span_within_recent(s.drop_last(), start, now);
    }
}

proof fn lemma_replay_step(reqs: Seq<(Seq<char>, u64)>, k: int)
    requires
        0 < k <= reqs.len(),
    ensures
        replay(Map::empty(), reqs.take(k)) == after_request(
            replay(Map::empty(), reqs.take(k - 1)),
            reqs[k - 1].0,
            reqs[k - 1].1,
        ),
{
    assert(reqs.take(k).drop_last() =~= reqs.take(k - 1));
}

/// What the limiter keeps of a client after `k` requests counts, at any
/// later time, exactly the client's admitted requests that count then.
proof fn lemma_replay_keeps_admitted(reqs: Seq<(Seq<char>, u64)>, client: Seq<char>, k: int)
    requires
        times_ordered(reqs),
        0 <= k <= reqs.len(),
    ensures
        forall|now: u64|
            (k == 0 || now >= reqs[k - 1].1) ==> #[trigger] recent_hits(
                replay(Map::empty(), reqs.take(k)),
                client,
                now,
            ) == recent(admitted_times(reqs, client, k), now),
        k > 0 ==> all_at_most(admitted_times(reqs, client, k), reqs[k - 1].1),
        k > 0 && replay(Map::empty(), reqs.take(k)).contains_key(client) ==> all_at_most(
            replay(Map::empty(), reqs.take(k))[client],
            reqs[k - 1].1,
        ),
        k == 0 ==> !replay(Map::empty(), reqs.take(k)).contains_key(client),
    decreases k,
{
    reveal_with_fuel(Seq::filter, 1);
    if k == 0 {
        assert(reqs.take(0) =~= Seq::<(Seq<char>, u64)>::empty());
        assert forall|now: u64| #[trigger]
            recent_hits(replay(Map::empty(), reqs.take(k)), client, now) == recent(
                admitted_times(reqs, client, k),
                now,
            ) by {
            assert(recent(Seq::<u64>::empty(), now) =~= Seq::<u64>::empty());
        }
    } else {
        lemma_replay_keeps_admitted(reqs, client, k - 1);
        lemma_replay_step(reqs, k);
        let prev = replay(Map::empty(), reqs.take(k - 1));
        let (d, t) = reqs[k - 1];
        let a_prev = admitted_times(reqs, client, k - 1);
        let old_log = if prev.contains_key(client) {
            prev[client]
        } else {
            seq![]
        };
        if k > 1 {
            assert(reqs[k - 2].1 <= t);
        }
        assert(all_at_most(old_log, t)) by {
            if k > 1 && prev.contains_key(client) {
                assert forall|i: int| 0 <= i < old_log.len() implies old_log[i] <= t by {
                    assert(old_log[i] <= reqs[k - 2].1);
                }
            }
        }
        assert(all_at_most(a_prev, t)) by {
            if k > 1 {
                assert forall|i: int| 0 <= i < a_prev.len() implies a_prev[i] <= t by {
                    assert(a_prev[i] <= reqs[k - 2].1);
                }
            }
        }
        assert(recent_hits(prev, client, t) == recent(old_log, t));
        assert(recent_hits(prev, client, t) == recent(a_prev, t));
        lemma_recent_bound(old_log, t, t);
        let next = replay(Map::empty(), reqs.take(k));
        assert forall|now: u64| now >= t implies #[trigger] recent_hits(next, client, now) == recent(
            admitted_times(reqs, client, k),
            now,
        ) by {
            lemma_recent_twice(old_log, t, now);
            assert(recent_hits(prev, client, now) == recent(a_prev, now));
            if d == client && admits(prev, d, t) {
                lemma_recent_push(recent(old_log, t), t, now);
                lemma_recent_push(a_prev, t, now);
            } else {
                if !pruned(prev, t).contains_key(client) {
                    assert(recent(old_log, t).len() == 0);
                    assert(recent(old_log, t) =~= Seq::<u64>::empty());
                    assert(recent(Seq::<u64>::empty(), now) =~= Seq::<u64>::empty());
                }
            }
        }
        assert(all_at_most(admitted_times(reqs, client, k), t));
    }
}

/// At most the limit of one client's requests are admitted in any minute,
/// whatever the other clients do, when requests come in time order to a
/// fresh limiter. The calls made on a limiter are such requests: its
/// `history()` is in time order and its log is their replay (`well_kept`),
/// and each call admits exactly when `admits` says of that replay.
pub proof fn law_at_most_limit_per_minute(reqs: Seq<(Seq<char>, u64)>, client: Seq<char>, start: int)
    requires
        times_ordered(reqs),
    ensures
        in_span(admitted_times(reqs, client, reqs.len() as int), start).len() <= REQUEST_LIMIT,
{
    lemma_span_bounded(reqs, client, start, reqs.len() as int);
}

proof fn lemma_span_bounded(reqs: Seq<(Seq<char>, u64)>, client: Seq<char>, start: int, n: int)
    requires
        times_ordered(reqs),
        0 <= n <= reqs.len(),
    ensures
        in_span(admitted_times(reqs, client, n), start).len() <= REQUEST_LIMIT,
    decreases n,
{
    reveal_with_fuel(Seq::filter, 1);
    if n == 0 {
        assert(in_span(Seq::<u64>::empty(), start) =~= Seq::<u64>::empty());
    } else {
        lemma_span_bounded(reqs, client, start, n - 1);
        let prev_times = admitted_times(reqs, client, n - 1);
        let (d, t) = reqs[n - 1];
        let state = replay(Map::empty(), reqs.take(n - 1));
        if d == client && admits(state, d, t) {
            assert(prev_times.push(t).drop_last() =~= prev_times);
            if start <= t && t < start + WINDOW_NANOS {
                lemma_replay_keeps_admitted(reqs, client, n - 1);
                assert(all_at_most(prev_times, t)) by {
                    if n > 1 {
                        assert(reqs[n - 2].1 <= t);
                        assert forall|i: int| 0 <= i < prev_times.len() implies prev_times[i] <= t by {
                            assert(prev_times[i] <= reqs[n - 2].1);
                        }
                    }
                }
                assert(recent_hits(state, client, t) == recent(prev_times, t));
                lemma_span_within_recent(prev_times, start, t);
            }
        }
    }
}


/// After a request at `now`, every client left in the log has at least one
/// request, and every request kept still counts at `now`: no client is kept
/// with nothing that counts.
pub proof fn law_log_is_fresh(m: Map<Seq<char>, Seq<u64>>, client: Seq<char>, now: u64)
    ensures
        forall|k: Seq<char>|
            after_request(m, client, now).contains_key(k) ==> (#[trigger] after_request(
                m,
                client,
                now,
            )[k]).len() > 0,
        forall|k: Seq<char>, i: int|
            after_request(m, client, now).contains_key(k) && 0 <= i < after_request(
                m,
                client,
                now,
            )[k].len() ==> in_window(#[trigger] after_request(m, client, now)[k][i], now),
{
    assert forall|k: Seq<char>, i: int|
        after_request(m, client, now).contains_key(k) && 0 <= i < after_request(
            m,
            client,
            now,
        )[k].len() implies in_window(#[trigger] after_request(m, client, now)[k][i], now) by {
        let f = |t: u64| in_window(t, now);
        if k == client && admits(m, client, now) {
            let prev = recent_hits(m, client, now);
            if i < prev.len() {
                if m.contains_key(client) {
                    m[client].lemma_filter_pred(f, i);
                }
            }
        } else {
            m[k].lemma_filter_pred(f, i);
        }
    }
}

/// The times of `client`'s requests among `reqs`, in order.
pub open spec fn client_times(reqs: Seq<(Seq<char>, u64)>, client: Seq<char>) -> Seq<u64>
    decreases reqs.len(),
{
    if reqs.len() == 0 {
        seq![]
    } else {
        let prev = client_times(reqs.drop_last(), client);
        if reqs.last().0 == client {
            prev.push(reqs.last().1)
        } else {
            prev
        }
    }
}

/// Which of one client's requests, made at `times` in turn, are admitted.
pub open spec fn admitted_of(times: Seq<u64>) -> Seq<u64>
    decreases times.len(),
{
    if times.len() == 0 {
        seq![]
    } else {
        let prev = admitted_of(times.drop_last());
        if recent(prev, times.last()).len() < REQUEST_LIMIT {
            prev.push(times.last())
        } else {
            prev
        }
    }
}

/// A client's admitted requests are decided by that client's requests alone.
proof fn lemma_admitted_own(reqs: Seq<(Seq<char>, u64)>, client: Seq<char>, n: int)
    requires
        times_ordered(reqs),
        0 <= n <= reqs.len(),
    ensures
        admitted_times(reqs, client, n) == admitted_of(client_times(reqs.take(n), client)),
    decreases n,
{
    if n == 0 {
        assert(reqs.take(0) =~= Seq::<(Seq<char>, u64)>::empty());
    } else {
        lemma_admitted_own(reqs, client, n - 1);
        assert(reqs.take(n).drop_last() =~= reqs.take(n - 1));
        let r = reqs[n - 1];
        let ct = client_times(reqs.take(n - 1), client);
        if r.0 == client {
            lemma_replay_keeps_admitted(reqs, client, n - 1);
            if n > 1 {
                assert(reqs[n - 2].1 <= r.1);
            }
            assert(ct.push(r.1).drop_last() =~= ct);
            assert(recent_hits(replay(Map::empty(), reqs.take(n - 1)), client, r.1) == recent(
                admitted_times(reqs, client, n - 1),
                r.1,
            ));
        }
    }
}

/// Whether a client's request at `now` is admitted depends on that client's
/// earlier requests alone: runs in time order on fresh limiters that hold the
/// same requests of the client, whatever other clients' requests lie between,
/// count the same of it at any later time.
pub proof fn law_clients_independent_over_runs(
    reqs1: Seq<(Seq<char>, u64)>,
    reqs2: Seq<(Seq<char>, u64)>,
    client: Seq<char>,
    now: u64,
)
    requires
        times_ordered(reqs1),
        times_ordered(reqs2),
        client_times(reqs1, client) == client_times(reqs2, client),
        now >= last_time(reqs1),
        now >= last_time(reqs2),
    ensures
        recent_hits(replay(Map::empty(), reqs1), client, now) == recent_hits(
            replay(Map::empty(), reqs2),
            client,
            now,
        ),
        admits(replay(Map::empty(), reqs1), client, now) == admits(
            replay(Map::empty(), reqs2),
            client,
            now,
        ),
{
    assert(reqs1.take(reqs1.len() as int) =~= reqs1);
    assert(reqs2.take(reqs2.len() as int) =~= reqs2);
    lemma_replay_keeps_admitted(reqs1, client, reqs1.len() as int);
    lemma_replay_keeps_admitted(reqs2, client, reqs2.len() as int);
    lemma_admitted_own(reqs1, client, reqs1.len() as int);
    lemma_admitted_own(reqs2, client, reqs2.len() as int);
    assert(recent_hits(replay(Map::empty(), reqs1.take(reqs1.len() as int)), client, now)
        == recent(admitted_times(reqs1, client, reqs1.len() as int), now));
    assert(recent_hits(replay(Map::empty(), reqs2.take(reqs2.len() as int)), client, now)
        == recent(admitted_times(reqs2, client, reqs2.len() as int), now));
}

/// None of `s` still counts at `now`.
proof fn lemma_recent_empty(s: Seq<u64>, now: u64)
    requires
        forall|i: int| 0 <= i < s.len() ==> !in_window(#[trigger] s[i], now),
    ensures
        recent(s, now).len() == 0,
    decreases s.len(),
{
    reveal_with_fuel(Seq::filter, 1);
    if s.len() > 0 {
        let rest = s.drop_last();
        assert forall|i: int| 0 <= i < rest.len() implies !in_window(#[trigger] rest[i], now) by {
            assert(rest[i] == s[i]);
        }
        lemma_recent_empty(rest, now);
        assert(!in_window(s[s.len() - 1], now));
    }
}

/// A client is admitted again once a minute has passed since each of its
/// admitted requests: on requests in time order to a fresh limiter, a request
/// of `client` at `now`, no earlier than the last of them, is admitted when
/// every one of the client's admitted requests was made at least a minute
/// before. The calls made on a limiter are such requests (`well_kept`), and
/// a call counts at no time earlier than the limiter's latest one.
pub proof fn law_admitted_again_after_a_minute(
    reqs: Seq<(Seq<char>, u64)>,
    client: Seq<char>,
    now: u64,
)
    requires
        times_ordered(reqs),
        now >= last_time(reqs),
        forall|i: int|
            0 <= i < admitted_times(reqs, client, reqs.len() as int).len() ==> #[trigger] admitted_times(
                reqs,
                client,
                reqs.len() as int,
            )[i] + WINDOW_NANOS <= now,
    ensures
        admits(replay(Map::empty(), reqs), client, now),
{
    let n = reqs.len() as int;
    assert(reqs.take(n) =~= reqs);
    lemma_replay_keeps_admitted(reqs, client, n);
    let a = admitted_times(reqs, client, n);
    assert forall|i: int| 0 <= i < a.len() implies !in_window(#[trigger] a[i], now) by {
        assert(a[i] + WINDOW_NANOS <= now);
    }
    lemma_recent_empty(a, now);
    assert(recent_hits(replay(Map::empty(), reqs.take(n)), client, now) == recent(a, now));
}

/// On a limiter: a call for `client` whose counting time (see
/// `check_rate_limit_at`) comes at least a minute after each of the client's
/// admitted requests so far is admitted.
pub proof fn law_limiter_admits_again_after_a_minute(l: &RateLimiter, client: Seq<char>, now: u64)
    requires
        l.well_kept(),
        forall|i: int|
            0 <= i < admitted_times(l.history(), client, l.history().len() as int).len()
                ==> #[trigger] admitted_times(l.history(), client, l.history().len() as int)[i]
                + WINDOW_NANOS <= request_time(l.latest_time(), now),
    ensures
        admits(l@, client, request_time(l.latest_time(), now)),
{
    law_admitted_again_after_a_minute(l.history(), client, request_time(l.latest_time(), now));
}

} // verus!
