//! Per-user sliding-window rate limiting of speech and voice-clone requests.

use dashmap::DashMap;
use std::collections::VecDeque;
use vstd::prelude::*;
use crate::clock::instant_now;
use crate::clock::elapsed_nanos;


verus! {

/// The kind of rate-limited action.
#[derive(Debug, Clone, Copy, PartialEq, Eq, Structural)]
pub enum RateKind {
    Speak,
    Clone,
}

/// What a map of per-user request windows holds: each user's request
/// instants, oldest first, in nanoseconds on the limiter's clock.
pub uninterp spec fn windows_of(m: DashMap<i64, VecDeque<u64>>) -> Map<i64, Seq<u64>>;

/// `DashMap::new`: an empty map.
#[verifier::external_body]
fn windows_new() -> (m: DashMap<i64, VecDeque<u64>>)
    ensures
        windows_of(m).dom().is_empty(),
{
    DashMap::new()
}

/// `DashMap::get` then `Clone::clone` of the value: a copy of a user's
/// window, if the map holds one.
#[verifier::external_body]
fn windows_get(m: &DashMap<i64, VecDeque<u64>>, user_id: i64) -> (r: Option<VecDeque<u64>>)
    ensures
        match r {
            Some(d) => windows_of(*m).contains_key(user_id) && windows_of(*m)[user_id] == d@,
            None => !windows_of(*m).contains_key(user_id),
        },
{
    m.get(&user_id).map(|d| d.value().clone())
}

/// `DashMap::insert`: stores a user's window, replacing any previous one.
#[verifier::external_body]
fn windows_insert(m: &mut DashMap<i64, VecDeque<u64>>, user_id: i64, d: VecDeque<u64>)
    ensures
        windows_of(*final(m)) == windows_of(*old(m)).insert(user_id, d@),
{
    m.insert(user_id, d);
}

/// The length of the speech window (one minute), in nanoseconds.
pub const SPEAK_WINDOW_NANOS: u64 = 60000000000;

/// The length of the clone window (one hour), in nanoseconds.
pub const CLONE_WINDOW_NANOS: u64 = 3600000000000;

/// How long before `now` an instant lies (zero for an instant after `now`).
pub open spec fn age(now: u64, t: u64) -> int {
    if now >= t {
        now - t
    } else {
        0
    }
}

/// A window with its leading instants older than `window` dropped, up to the
/// first one that is not.
pub open spec fn prune(s: Seq<u64>, now: u64, window: u64) -> Seq<u64>
    decreases s.len(),
{
    if s.len() > 0 && age(now, s[0]) > window {
        prune(s.drop_first(), now, window)
    } else {
        s
    }
}

/// Whether a request at `now` is allowed, given the stored window.
pub open spec fn allows(s: Seq<u64>, now: u64, max: u32, window: u64) -> bool {
    prune(s, now, window).len() < max
}

/// The window stored after a request at `now`.
pub open spec fn window_after(s: Seq<u64>, now: u64, max: u32, window: u64) -> Seq<u64> {
    if allows(s, now, max, window) {
        prune(s, now, window).push(now)
    } else {
        prune(s, now, window)
    }
}

/// A window is well formed when it is sorted (oldest first) and holds at most
/// `max` instants.
pub open spec fn window_wf(s: Seq<u64>, max: u32) -> bool {
    &&& s.len() <= max
    &&& forall|i: int, j: int| 0 <= i <= j < s.len() ==> s[i] <= s[j]
}

/// The stored window of a user (empty when none is stored).
pub open spec fn window_of(m: Map<i64, Seq<u64>>, user_id: i64) -> Seq<u64> {
    if m.contains_key(user_id) {
        m[user_id]
    } else {
        Seq::empty()
    }
}

/// Pruning keeps a suffix of the window.
proof fn lemma_prune_suffix(s: Seq<u64>, now: u64, window: u64)
    ensures
        exists|k: int|
            0 <= k <= s.len() && #[trigger] prune(s, now, window) == s.subrange(k, s.len() as int),
    decreases s.len(),
{
    if s.len() > 0 && age(now, s[0]) > window {
        lemma_prune_suffix(s.drop_first(), now, window);
        let k = choose|k: int|
            0 <= k <= s.drop_first().len() && #[trigger] prune(s.drop_first(), now, window)
                == s.drop_first().subrange(k, s.drop_first().len() as int);
        assert(s.drop_first().subrange(k, s.drop_first().len() as int) =~= s.subrange(
            k + 1,
            s.len() as int,
        ));
    } else {
        assert(s.subrange(0, s.len() as int) =~= s);
    }
}

/// In a sorted window whose instants are not after `now`, every instant that
/// pruning keeps lies within the window of `now`.
pub proof fn lemma_pruned_within_window(s: Seq<u64>, now: u64, window: u64)
    requires
        forall|i: int, j: int| 0 <= i <= j < s.len() ==> s[i] <= s[j],
        forall|i: int| 0 <= i < s.len() ==> s[i] <= now,
    ensures
        forall|i: int|
            0 <= i < prune(s, now, window).len() ==> age(now, #[trigger] prune(s, now, window)[i])
                <= window,
    decreases s.len(),
{
    if s.len() > 0 && age(now, s[0]) > window {
        let t = s.drop_first();
        assert forall|i: int, j: int| 0 <= i <= j < t.len() implies t[i] <= t[j] by {
            assert(t[i] == s[i + 1] && t[j] == s[j + 1]);
        }
        assert forall|i: int| 0 <= i < t.len() implies t[i] <= now by {
            assert(t[i] == s[i + 1]);
        }
        lemma_pruned_within_window(t, now, window);
        assert(prune(s, now, window) == prune(t, now, window));
    } else if s.len() > 0 {
        assert(prune(s, now, window) == s);
        assert forall|i: int| 0 <= i < s.len() implies age(now, #[trigger] s[i]) <= window by {
            assert(s[0] <= s[i]);
        }
    }
}

/// Rate limiting never stores more instants than allowed and keeps windows
/// sorted: a request at an instant not before any stored one keeps a window
/// well formed.
pub proof fn lemma_window_after_wf(s: Seq<u64>, now: u64, max: u32, window: u64)
    requires
        window_wf(s, max),
        forall|i: int| 0 <= i < s.len() ==> s[i] <= now,
    ensures
        window_wf(window_after(s, now, max, window), max),
        forall|i: int|
            0 <= i < window_after(s, now, max, window).len() ==> #[trigger] window_after(
                s,
                now,
                max,
                window,
            )[i] <= now,
{
    lemma_prune_suffix(s, now, window);
    let p = prune(s, now, window);
    let k = choose|k: int| 0 <= k <= s.len() && #[trigger] prune(s, now, window) == s.subrange(k, s.len() as int);
    assert forall|i: int, j: int| 0 <= i <= j < p.len() implies p[i] <= p[j] by {
        assert(p[i] == s[k + i] && p[j] == s[k + j]);
    }
    assert forall|i: int| 0 <= i < p.len() implies p[i] <= now by {
        assert(p[i] == s[k + i]);
    }
}

/// The limit holds: from a well-formed window whose instants are not after
/// `now`, the window a request at `now` leaves holds at most `max` instants,
/// all within `window` of `now`; so at most `max` requests are admitted in
/// any window-long span ending at an admitted request.
pub proof fn lemma_admitted_within_limit(s: Seq<u64>, now: u64, max: u32, window: u64)
    requires
        window_wf(s, max),
        forall|i: int| 0 <= i < s.len() ==> s[i] <= now,
    ensures
        window_after(s, now, max, window).len() <= max,
        forall|i: int|
            0 <= i < window_after(s, now, max, window).len() ==> age(
                now,
                #[trigger] window_after(s, now, max, window)[i],
            ) <= window,
{
    lemma_window_after_wf(s, now, max, window);
    lemma_pruned_within_window(s, now, window);
    let p = prune(s, now, window);
    let w = window_after(s, now, max, window);
    assert forall|i: int| 0 <= i < w.len() implies age(now, #[trigger] w[i]) <= window by {
        if i < p.len() {
            assert(w[i] == p[i]);
        }
    }
}

/// The window stored for one user and kind after requests at `times`, in
/// turn, starting from none.
pub open spec fn stored_after(times: Seq<u64>, max: u32, window: u64) -> Seq<u64>
    decreases times.len(),
{
    if times.len() == 0 {
        Seq::empty()
    } else {
        window_after(stored_after(times.drop_last(), max, window), times.last(), max, window)
    }
}

/// The instants of the requests among `times` that were admitted, in order.
pub open spec fn admitted(times: Seq<u64>, max: u32, window: u64) -> Seq<u64>
    decreases times.len(),
{
    if times.len() == 0 {
        Seq::empty()
    } else {
        let p = times.drop_last();
        if allows(stored_after(p, max, window), times.last(), max, window) {
            admitted(p, max, window).push(times.last())
        } else {
            admitted(p, max, window)
        }
    }
}

/// How many of the instants lie within `window` of `now`.
pub open spec fn count_within(s: Seq<u64>, now: u64, window: u64) -> nat
    decreases s.len(),
{
    if s.len() == 0 {
        0
    } else {
        count_within(s.drop_first(), now, window) + if age(now, s[0]) <= window {
            1nat
        } else {
            0nat
        }
    }
}

/// Whether instants are in order (oldest first) and none is after `now`.
pub open spec fn sorted_upto(s: Seq<u64>, now: u64) -> bool {
    &&& forall|i: int, j: int| 0 <= i <= j < s.len() ==> s[i] <= s[j]
    &&& forall|i: int| 0 <= i < s.len() ==> s[i] <= now
}

proof fn lemma_sorted_drop_first(s: Seq<u64>, now: u64)
    requires
        sorted_upto(s, now),
        s.len() > 0,
    ensures
        sorted_upto(s.drop_first(), now),
{
    let t = s.drop_first();
    assert forall|i: int, j: int| 0 <= i <= j < t.len() implies t[i] <= t[j] by {
        assert(t[i] == s[i + 1] && t[j] == s[j + 1]);
    }
    assert forall|i: int| 0 <= i < t.len() implies t[i] <= now by {
        assert(t[i] == s[i + 1]);
    }
}

/// In sorted instants, pruning keeps exactly those within the window.
proof fn lemma_prune_counts(s: Seq<u64>, now: u64, window: u64)
    requires
        sorted_upto(s, now),
    ensures
        prune(s, now, window).len() == count_within(s, now, window),
    decreases s.len(),
{
    if s.len() > 0 {
        lemma_sorted_drop_first(s, now);
        if age(now, s[0]) > window {
            lemma_prune_counts(s.drop_first(), now, window);
        } else {
            lemma_all_within(s, now, window);
        }
    }
}

proof fn lemma_all_within(s: Seq<u64>, now: u64, window: u64)
    requires
        sorted_upto(s, now),
        s.len() > 0,
        age(now, s[0]) <= window,
    ensures
        count_within(s, now, window) == s.len(),
    decreases s.len(),
{
    if s.len() > 1 {
        lemma_sorted_drop_first(s, now);
        assert(s.drop_first()[0] == s[1]);
        assert(s[0] <= s[1] && s[1] <= now);
        assert(age(now, s[1]) <= age(now, s[0]));
        lemma_all_within(s.drop_first(), now, window);
    } else {
        assert(count_within(s.drop_first(), now, window) == 0);
    }
}

/// Pruning at an earlier instant, then at a later one, is pruning at the
/// later one.
proof fn lemma_prune_twice(s: Seq<u64>, last: u64, now: u64, window: u64)
    requires
        sorted_upto(s, last),
        last <= now,
    ensures
        prune(prune(s, last, window), now, window) == prune(s, now, window),
    decreases s.len(),
{
    if s.len() > 0 && age(last, s[0]) > window {
        lemma_sorted_drop_first(s, last);
        lemma_prune_twice(s.drop_first(), last, now, window);
    }
}

/// An instant within the window is never pruned from the end.
proof fn lemma_prune_push(s: Seq<u64>, x: u64, now: u64, window: u64)
    requires
        age(now, x) <= window,
    ensures
        prune(s.push(x), now, window) == prune(s, now, window).push(x),
    decreases s.len(),
{
    if s.len() > 0 {
        assert(s.push(x)[0] == s[0]);
        assert(s.push(x).drop_first() =~= s.drop_first().push(x));
        if age(now, s[0]) > window {
            lemma_prune_push(s.drop_first(), x, now, window);
        }
    } else {
        assert(s.push(x).drop_first() =~= Seq::<u64>::empty());
    }
}

/// For requests in time order: the admitted instants are in order and not
/// after the last request, and the stored window is exactly those of them
/// within the window of the last request.
proof fn lemma_stored_is_recent_admitted(times: Seq<u64>, max: u32, window: u64)
    requires
        times.len() > 0,
        forall|i: int, j: int| 0 <= i <= j < times.len() ==> times[i] <= times[j],
    ensures
        sorted_upto(admitted(times, max, window), times.last()),
        stored_after(times, max, window) == prune(
            admitted(times, max, window),
            times.last(),
            window,
        ),
    decreases times.len(),
{
    let p = times.drop_last();
    let now = times.last();
    let a = admitted(p, max, window);
    let s = stored_after(p, max, window);
    if p.len() > 0 {
        assert forall|i: int, j: int| 0 <= i <= j < p.len() implies p[i] <= p[j] by {
            assert(p[i] == times[i] && p[j] == times[j]);
        }
        lemma_stored_is_recent_admitted(p, max, window);
        assert(p.last() <= now);
        assert(sorted_upto(a, now));
        lemma_prune_twice(a, p.last(), now, window);
    } else {
        assert(a =~= Seq::<u64>::empty());
        assert(s =~= Seq::<u64>::empty());
    }
    assert(prune(s, now, window) == prune(a, now, window));
    if allows(s, now, max, window) {
        lemma_prune_push(a, now, now, window);
        let b = a.push(now);
        assert forall|i: int, j: int| 0 <= i <= j < b.len() implies b[i] <= b[j] by {
            if j < a.len() {
                assert(b[i] == a[i] && b[j] == a[j]);
            } else {
                assert(b[i] <= now);
            }
        }
    }
}

/// Rate-limit law: for one user and kind, with requests in time order, a
/// request at `now` (not before any earlier one) is admitted exactly when
/// fewer than `max` of the earlier admitted requests lie within `window` of
/// `now`.
pub proof fn lemma_admits_iff_under_limit(times: Seq<u64>, now: u64, max: u32, window: u64)
    requires
        forall|i: int, j: int| 0 <= i <= j < times.len() ==> times[i] <= times[j],
        forall|i: int| 0 <= i < times.len() ==> times[i] <= now,
    ensures
        allows(stored_after(times, max, window), now, max, window) == (count_within(
            admitted(times, max, window),
            now,
            window,
        ) < max),
{
    let a = admitted(times, max, window);
    if times.len() > 0 {
        lemma_stored_is_recent_admitted(times, max, window);
        assert(times.last() <= now);
        assert(sorted_upto(a, now));
        lemma_prune_twice(a, times.last(), now, window);
        lemma_prune_counts(a, now, window);
    } else {
        assert(a =~= Seq::<u64>::empty());
        assert(stored_after(times, max, window) =~= Seq::<u64>::empty());
    }
}

/// Per-user sliding-window rate limiter.
pub struct RateLimiter {
    speak_max: u32,
    clone_max: u32,
    speak_windows: DashMap<i64, VecDeque<u64>>,
    clone_windows: DashMap<i64, VecDeque<u64>>,
    started: std::time::Instant,
    /// The latest instant a `check` used.
    last_now: u64,
}

impl RateLimiter {
    /// The most speech requests allowed per minute.
    pub closed spec fn speak_limit(&self) -> u32 {
        self.speak_max
    }

    /// The most clone requests allowed per hour.
    pub closed spec fn clone_limit(&self) -> u32 {
        self.clone_max
    }

    /// Each user's speech request instants.
    pub closed spec fn speak_windows(&self) -> Map<i64, Seq<u64>> {
        windows_of(self.speak_windows)
    }

    /// Each user's clone request instants.
    pub closed spec fn clone_windows(&self) -> Map<i64, Seq<u64>> {
        windows_of(self.clone_windows)
    }

    /// The limit and the length of the window of a kind.
    pub open spec fn limits(&self, kind: RateKind) -> (u32, u64) {
        match kind {
            RateKind::Speak => (self.speak_limit(), SPEAK_WINDOW_NANOS),
            RateKind::Clone => (self.clone_limit(), CLONE_WINDOW_NANOS),
        }
    }

    /// The stored windows of a kind.
    pub open spec fn windows(&self, kind: RateKind) -> Map<i64, Seq<u64>> {
        match kind {
            RateKind::Speak => self.speak_windows(),
            RateKind::Clone => self.clone_windows(),
        }
    }

    /// A limiter allowing `speak_per_min` speech requests per minute and
    /// `clone_per_hr` clone requests per hour (each at least one).
    pub fn new(speak_per_min: u32, clone_per_hr: u32) -> (r: Self)
        ensures
            r.speak_limit() == if speak_per_min >= 1 { speak_per_min } else { 1 },
            r.clone_limit() == if clone_per_hr >= 1 { clone_per_hr } else { 1 },
            r.speak_windows().dom().is_empty(),
            r.clone_windows().dom().is_empty(),
    {
        RateLimiter {
            speak_max: if speak_per_min >= 1 { speak_per_min } else { 1 },
            clone_max: if clone_per_hr >= 1 { clone_per_hr } else { 1 },
            speak_windows: windows_new(),
            clone_windows: windows_new(),
            started: instant_now(),
            last_now: 0,
        }
    }

    /// Whether `after` and `allowed` are what a request of `kind` by
    /// `user_id` at instant `now` leads to from `self`.
    pub open spec fn checks_to(
        &self,
        after: &Self,
        user_id: i64,
        kind: RateKind,
        now: u64,
        allowed: bool,
    ) -> bool {
        let (max, window) = self.limits(kind);
        let s = window_of(self.windows(kind), user_id);
        &&& allowed == allows(s, now, max, window)
        &&& after.windows(kind) == self.windows(kind).insert(
            user_id,
            window_after(s, now, max, window),
        )
        &&& after.speak_limit() == self.speak_limit()
        &&& after.clone_limit() == self.clone_limit()
        &&& kind == RateKind::Speak ==> after.clone_windows() == self.clone_windows()
        &&& kind == RateKind::Clone ==> after.speak_windows() == self.speak_windows()
    }

    /// The latest instant a `check` used (zero before the first).
    pub closed spec fn clock(&self) -> u64 {
        self.last_now
    }

    /// Returns true if the action is allowed (and then records it), reading
    /// the limiter's clock for the current instant. The clock is monotonic
    /// (`Instant` never goes back), and the instant used is never taken
    /// earlier than that of a previous check.
    pub fn check(&mut self, user_id: i64, kind: RateKind) -> (allowed: bool)
        ensures
            exists|now: u64|
                now >= old(self).clock() && final(self).clock() == now && #[trigger] old(self).checks_to(final(self), user_id, kind, now, allowed),
    {
        let t = elapsed_nanos(&self.started);
        let now = if t < self.last_now {
            self.last_now
        } else {
            t
        };
        let allowed = self.check_at(user_id, kind, now);
        let ghost mid = *self;
        self.last_now = now;
        assert(self.speak_windows() == mid.speak_windows());
        assert(self.clone_windows() == mid.clone_windows());
        assert(old(self).checks_to(self, user_id, kind, now, allowed));
        allowed
    }

    /// Returns true if an action of `kind` by `user_id` at instant `now` is
    /// allowed, and then records it. Instants older than the window are
    /// dropped from the front of the user's window first (and stay dropped
    /// whatever the outcome).
    pub fn check_at(&mut self, user_id: i64, kind: RateKind, now: u64) -> (allowed: bool)
        ensures
            old(self).checks_to(final(self), user_id, kind, now, allowed),
            final(self).clock() == old(self).clock(),
    {
        match kind {
            RateKind::Speak => {
                let max = self.speak_max;
                check_window(&mut self.speak_windows, user_id, max, SPEAK_WINDOW_NANOS, now)
            },
            RateKind::Clone => {
                let max = self.clone_max;
                check_window(&mut self.clone_windows, user_id, max, CLONE_WINDOW_NANOS, now)
            },
        }
    }
}

fn check_window(
    map: &mut DashMap<i64, VecDeque<u64>>,
    user_id: i64,
    max: u32,
    window: u64,
    now: u64,
) -> (allowed: bool)
    ensures
        ({
            let s = window_of(windows_of(*old(map)), user_id);
            &&& allowed == allows(s, now, max, window)
            &&& windows_of(*final(map)) == windows_of(*old(map)).insert(
                user_id,
                window_after(s, now, max, window),
            )
        }),
{
    let ghost s = window_of(windows_of(*map), user_id);
    let mut deque = match windows_get(map, user_id) {
        Some(d) => d,
        None => VecDeque::new(),
    };
    assert(deque@ == s);
    while deque.len() > 0 && now.saturating_sub(deque[0]) > window
        invariant
            prune(s, now, window) == prune(deque@, now, window),
        decreases deque@.len(),
    {
        let ghost before = deque@;
        let _ = deque.pop_front();
        assert(deque@ =~= before.drop_first());
    }
    assert(prune(deque@, now, window) == deque@);
    if deque.len() as u64 >= max as u64 {
        windows_insert(map, user_id, deque);
        return false;
    }
    deque.push_back(now);
    windows_insert(map, user_id, deque);
    true
}

proof fn lemma_checks_follow_stored(
    states: Seq<RateLimiter>,
    times: Seq<u64>,
    results: Seq<bool>,
    user_id: i64,
    kind: RateKind,
    k: int,
)
    requires
        states.len() == times.len() + 1,
        results.len() == times.len(),
        0 <= k <= times.len(),
        !states[0].windows(kind).contains_key(user_id),
        forall|j: int|
            0 <= j < times.len() ==> #[trigger] states[j].checks_to(
                &states[j + 1],
                user_id,
                kind,
                times[j],
                results[j],
            ),
    ensures
        states[k].limits(kind) == states[0].limits(kind),
        window_of(states[k].windows(kind), user_id) == stored_after(
            times.take(k),
            states[0].limits(kind).0,
            states[0].limits(kind).1,
        ),
    decreases k,
{
    if k > 0 {
        lemma_checks_follow_stored(states, times, results, user_id, kind, k - 1);
        let j = k - 1;
        assert(states[j].checks_to(&states[j + 1], user_id, kind, times[j], results[j]));
        assert(j + 1 == k);
        assert(times.take(k).drop_last() =~= times.take(k - 1));
        assert(times.take(k).last() == times[k - 1]);
    } else {
        assert(times.take(0) =~= Seq::<u64>::empty());
    }
}

/// Rate-limit law over successive checks: for one user and kind, starting
/// with no stored window, along checks at instants in time order (as
/// `check`'s clock gives them), each check admits exactly when fewer than
/// the limit of the earlier admitted requests lie within the window of its
/// instant. (Checks for other users or the other kind leave this window
/// alone, as `checks_to` states.)
pub proof fn lemma_successive_checks(
    states: Seq<RateLimiter>,
    times: Seq<u64>,
    results: Seq<bool>,
    user_id: i64,
    kind: RateKind,
)
    requires
        states.len() == times.len() + 1,
        results.len() == times.len(),
        !states[0].windows(kind).contains_key(user_id),
        forall|j: int|
            0 <= j < times.len() ==> #[trigger] states[j].checks_to(
                &states[j + 1],
                user_id,
                kind,
                times[j],
                results[j],
            ),
        forall|i: int, j: int| 0 <= i <= j < times.len() ==> times[i] <= times[j],
    ensures
        forall|k: int|
            0 <= k < times.len() ==> #[trigger] results[k] == (count_within(
                admitted(times.take(k), states[0].limits(kind).0, states[0].limits(kind).1),
                times[k],
                states[0].limits(kind).1,
            ) < states[0].limits(kind).0),
{
    let max = states[0].limits(kind).0;
    let window = states[0].limits(kind).1;
    assert forall|k: int| 0 <= k < times.len() implies #[trigger] results[k] == (count_within(
        admitted(times.take(k), max, window),
        times[k],
        window,
    ) < max) by {
        lemma_checks_follow_stored(states, times, results, user_id, kind, k);
        assert(states[k].checks_to(&states[k + 1], user_id, kind, times[k], results[k]));
        let p = times.take(k);
        assert forall|i: int, j: int| 0 <= i <= j < p.len() implies p[i] <= p[j] by {
            assert(p[i] == times[i] && p[j] == times[j]);
        }
        assert forall|i: int| 0 <= i < p.len() implies p[i] <= times[k] by {
            assert(p[i] == times[i]);
        }
        lemma_admits_iff_under_limit(p, times[k], max, window);
    }
}

} // verus!
