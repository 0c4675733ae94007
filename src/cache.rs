//! A time-to-live cache entry driven as a state machine.
//!
//! The caller owns the generator and the clock. It asks the entry whether the
//! current snapshot is still fresh, claims the right to regenerate when it is
//! not, runs the generator, and installs the outcome. Every decision lives
//! here; the caller only performs the work and reports the time.
use vstd::prelude::*;

verus! {

/// A produced value together with the instant at which it was produced.
pub struct Snapshot<T, E> {
    pub value: Result<T, E>,
    pub produced_at: u64,
}

/// How long a snapshot stays fresh, chosen by the outcome it holds.
#[derive(Clone, Copy, Debug, PartialEq, Eq)]
pub struct TtlPolicy {
    pub success_ttl: u64,
    pub failure_ttl: u64,
}

impl TtlPolicy {
    /// One window for successes and failures alike.
    pub fn uniform(ttl: u64) -> (p: TtlPolicy)
        ensures
            p.success_ttl == ttl,
            p.failure_ttl == ttl,
    {
        TtlPolicy { success_ttl: ttl, failure_ttl: ttl }
    }

    /// The window that applies to a snapshot holding `value`.
    pub open spec fn ttl_of<T, E>(self, value: Result<T, E>) -> u64 {
        match value {
            Ok(_) => self.success_ttl,
            Err(_) => self.failure_ttl,
        }
    }

    pub fn ttl_for<T, E>(&self, value: &Result<T, E>) -> (r: u64)
        ensures
            r == self.ttl_of(*value),
    {
        match value {
            Ok(_) => self.success_ttl,
            Err(_) => self.failure_ttl,
        }
    }
}

/// Time elapsed since `produced_at`; a clock reading before it counts as no time.
pub open spec fn age(produced_at: u64, now: u64) -> nat {
    if now >= produced_at {
        (now - produced_at) as nat
    } else {
        0
    }
}

/// A snapshot is fresh while its age does not exceed its window.
pub open spec fn fresh_at<T, E>(policy: TtlPolicy, snap: Snapshot<T, E>, now: u64) -> bool {
    age(snap.produced_at, now) <= policy.ttl_of(snap.value)
}

/// The abstract state of an entry: its policy, its snapshot if any, whether a
/// regeneration is in flight, and how many times the generator was started.
pub ghost struct EntryState<T, E> {
    pub policy: TtlPolicy,
    pub snapshot: Option<Snapshot<T, E>>,
    pub in_flight: bool,
    pub invocations: nat,
}

/// What a caller that found no fresh snapshot under shared access must do.
#[derive(Clone, Copy, Debug, PartialEq, Eq)]
pub enum Claim {
    /// Another caller refreshed the entry meanwhile: read it.
    Serve,
    /// This caller must run the generator and install its outcome.
    Regenerate,
    /// A regeneration is in flight: wait for it, then read again.
    Wait,
}

pub open spec fn has_fresh<T, E>(s: EntryState<T, E>, now: u64) -> bool {
    s.snapshot is Some && fresh_at(s.policy, s.snapshot->Some_0, now)
}

/// The snapshot a shared read returns at `now`, if it is fresh.
pub open spec fn read_result<T, E>(s: EntryState<T, E>, now: u64) -> Option<Snapshot<T, E>> {
    if has_fresh(s, now) {
        s.snapshot
    } else {
        None
    }
}

/// The exclusive step: check freshness again, then serve, wait, or start the
/// one regeneration.
pub open spec fn claim_step<T, E>(s: EntryState<T, E>, now: u64) -> (EntryState<T, E>, Claim) {
    if has_fresh(s, now) {
        (s, Claim::Serve)
    } else if s.in_flight {
        (s, Claim::Wait)
    } else {
        (EntryState { in_flight: true, invocations: s.invocations + 1, ..s }, Claim::Regenerate)
    }
}

/// Installing an outcome replaces the snapshot whole and ends the regeneration.
pub open spec fn install_step<T, E>(s: EntryState<T, E>, value: Result<T, E>, now: u64) -> EntryState<
    T,
    E,
> {
    EntryState {
        snapshot: Some(Snapshot { value, produced_at: now }),
        in_flight: false,
        ..s
    }
}

/// The claims of several callers that find the entry stale one after another.
pub open spec fn claim_many<T, E>(s: EntryState<T, E>, times: Seq<u64>) -> (
    EntryState<T, E>,
    Seq<Claim>,
)
    decreases times.len(),
{
    if times.len() == 0 {
        (s, Seq::empty())
    } else {
        let (s1, c) = claim_step(s, times[0]);
        let (s2, cs) = claim_many(s1, times.drop_first());
        (s2, seq![c] + cs)
    }
}

/// Two accesses inside one window, with no regeneration between them, both see
/// the same snapshot, leave the entry as it was, and start no generator.
pub proof fn lemma_reads_within_window_agree<T, E>(s: EntryState<T, E>, t1: u64, t2: u64)
    requires
        s.snapshot is Some,
        s.snapshot->Some_0.produced_at <= t1 <= t2,
        fresh_at(s.policy, s.snapshot->Some_0, t2),
    ensures
        claim_step(s, t1) == (s, Claim::Serve),
        claim_step(claim_step(s, t1).0, t2) == (s, Claim::Serve),
        read_result(s, t1) == s.snapshot,
        read_result(s, t2) == s.snapshot,
        claim_step(claim_step(s, t1).0, t2).0.invocations == s.invocations,
{
}

/// While a regeneration is in flight, every further claim waits and changes nothing.
pub proof fn lemma_in_flight_claims_wait<T, E>(s: EntryState<T, E>, times: Seq<u64>)
    requires
        s.in_flight,
        forall|i: int| 0 <= i < times.len() ==> !has_fresh(s, #[trigger] times[i]),
    ensures
        claim_many(s, times).0 == s,
        claim_many(s, times).1.len() == times.len(),
        forall|i: int| 0 <= i < times.len() ==> #[trigger] claim_many(s, times).1[i] == Claim::Wait,
    decreases times.len(),
{
    if times.len() > 0 {
        let rest = times.drop_first();
        assert forall|i: int| 0 <= i < rest.len() implies !has_fresh(s, #[trigger] rest[i]) by {
            assert(rest[i] == times[i + 1]);
        }
        lemma_in_flight_claims_wait(s, rest);
        let cs = claim_many(s, times).1;
        assert forall|i: int| 0 <= i < times.len() implies #[trigger] cs[i] == Claim::Wait by {
            if i > 0 {
                assert(cs[i] == claim_many(s, rest).1[i - 1]);
            }
        }
    }
}

/// Claims on an entry that is fresh at every given time all serve it unchanged.
pub proof fn lemma_fresh_claims_serve<T, E>(s: EntryState<T, E>, times: Seq<u64>)
    requires
        forall|i: int| 0 <= i < times.len() ==> has_fresh(s, #[trigger] times[i]),
    ensures
        claim_many(s, times).0 == s,
        claim_many(s, times).1.len() == times.len(),
        forall|i: int| 0 <= i < times.len() ==> #[trigger] claim_many(s, times).1[i] == Claim::Serve,
    decreases times.len(),
{
    if times.len() > 0 {
        let rest = times.drop_first();
        assert forall|i: int| 0 <= i < rest.len() implies has_fresh(s, #[trigger] rest[i]) by {
            assert(rest[i] == times[i + 1]);
        }
        lemma_fresh_claims_serve(s, rest);
        let cs = claim_many(s, times).1;
        assert forall|i: int| 0 <= i < times.len() implies #[trigger] cs[i] == Claim::Serve by {
            if i > 0 {
                assert(cs[i] == claim_many(s, rest).1[i - 1]);
            }
        }
    }
}

/// Callers that reach a cold entry together start the generator exactly once:
/// the first claim regenerates and the others wait. Once the outcome is
/// installed, every caller that reads again inside its window sees that one
/// snapshot, and no further generator starts.
pub proof fn lemma_single_flight<T, E>(
    s: EntryState<T, E>,
    times: Seq<u64>,
    value: Result<T, E>,
    done_at: u64,
    reads: Seq<u64>,
)
    requires
        s.snapshot is None,
        !s.in_flight,
        times.len() > 0,
        forall|i: int|
            0 <= i < reads.len() ==> done_at <= #[trigger] reads[i] && fresh_at(
                s.policy,
                Snapshot { value, produced_at: done_at },
                reads[i],
            ),
    ensures
        ({
            let (s1, cs) = claim_many(s, times);
            let s2 = install_step(s1, value, done_at);
            &&& cs.len() == times.len()
            &&& cs[0] == Claim::Regenerate
            &&& forall|i: int| 1 <= i < times.len() ==> #[trigger] cs[i] == Claim::Wait
            &&& s1.in_flight
            &&& s1.invocations == s.invocations + 1
            &&& claim_many(s2, reads).0 == s2
            &&& forall|i: int| 0 <= i < reads.len() ==> #[trigger] claim_many(s2, reads).1[i] == Claim::Serve
            &&& forall|i: int| 0 <= i < reads.len() ==> #[trigger] read_result(s2, reads[i]) == Some(
                Snapshot { value, produced_at: done_at },
            )
            &&& s2.invocations == s.invocations + 1
        }),
{
    let (s0, c0) = claim_step(s, times[0]);
    let rest = times.drop_first();
    assert forall|i: int| 0 <= i < rest.len() implies !has_fresh(s0, #[trigger] rest[i]) by {}
    lemma_in_flight_claims_wait(s0, rest);
    let (s1, cs) = claim_many(s, times);
    assert forall|i: int| 1 <= i < times.len() implies #[trigger] cs[i] == Claim::Wait by {
        assert(cs[i] == claim_many(s0, rest).1[i - 1]);
    }
    let s2 = install_step(s1, value, done_at);
    assert forall|i: int| 0 <= i < reads.len() implies has_fresh(s2, #[trigger] reads[i]) by {}
    lemma_fresh_claims_serve(s2, reads);
}

/// Once the window has passed, the next access starts exactly one
/// regeneration, and the snapshot it installs later is strictly newer.
pub proof fn lemma_expiry_regenerates_once<T, E>(
    s: EntryState<T, E>,
    now: u64,
    value: Result<T, E>,
    done_at: u64,
)
    requires
        s.snapshot is Some,
        !s.in_flight,
        !fresh_at(s.policy, s.snapshot->Some_0, now),
        now <= done_at,
    ensures
        claim_step(s, now).1 == Claim::Regenerate,
        claim_step(s, now).0.invocations == s.invocations + 1,
        claim_step(claim_step(s, now).0, now).1 == Claim::Wait,
        install_step(claim_step(s, now).0, value, done_at).snapshot->Some_0.produced_at
            > s.snapshot->Some_0.produced_at,
        install_step(claim_step(s, now).0, value, done_at).invocations == s.invocations + 1,
{
}

/// A failure is kept like any other outcome: two accesses inside its window
/// both see the same error, and neither starts the generator again.
pub proof fn lemma_failure_is_cached<T, E>(
    s: EntryState<T, E>,
    err: E,
    done_at: u64,
    t1: u64,
    t2: u64,
)
    requires
        s.in_flight,
        done_at <= t1 <= t2,
        t2 - done_at <= s.policy.failure_ttl,
    ensures
        ({
            let s1 = install_step(s, Err::<T, E>(err), done_at);
            let snap = Snapshot::<T, E> { value: Err(err), produced_at: done_at };
            &&& claim_step(s1, t1) == (s1, Claim::Serve)
            &&& claim_step(s1, t2) == (s1, Claim::Serve)
            &&& read_result(s1, t1) == Some(snap)
            &&& read_result(s1, t2) == Some(snap)
            &&& s1.invocations == s.invocations
        }),
{
}

/// One cache entry: a policy, the latest snapshot, and the single-flight flag.
pub struct TtlEntry<T, E> {
    policy: TtlPolicy,
    snapshot: Option<Snapshot<T, E>>,
    in_flight: bool,
    invocations: Ghost<nat>,
}

impl<T, E> View for TtlEntry<T, E> {
    type V = EntryState<T, E>;

    closed spec fn view(&self) -> EntryState<T, E> {
        EntryState {
            policy: self.policy,
            snapshot: self.snapshot,
            in_flight: self.in_flight,
            invocations: self.invocations@,
        }
    }
}

impl<T, E> TtlEntry<T, E> {
    /// An entry with no snapshot yet: the first access regenerates.
    pub fn new(policy: TtlPolicy) -> (r: TtlEntry<T, E>)
        ensures
            r@ == (EntryState::<T, E> {
                policy,
                snapshot: None,
                in_flight: false,
                invocations: 0,
            }),
    {
        TtlEntry { policy, snapshot: None, in_flight: false, invocations: Ghost(0) }
    }

    /// An entry whose successes and failures share one window of `ttl`.
    pub fn with_ttl(ttl: u64) -> (r: TtlEntry<T, E>)
        ensures
            r@.policy.success_ttl == ttl,
            r@.policy.failure_ttl == ttl,
            r@.snapshot is None,
            !r@.in_flight,
            r@.invocations == 0,
    {
        TtlEntry::new(TtlPolicy::uniform(ttl))
    }

    pub fn policy(&self) -> (r: TtlPolicy)
        ensures
            r == self@.policy,
    {
        self.policy
    }

    pub fn is_in_flight(&self) -> (r: bool)
        ensures
            r == self@.in_flight,
    {
        self.in_flight
    }

    /// Whether a snapshot exists and is fresh at `now`.
    pub fn is_fresh(&self, now: u64) -> (r: bool)
        ensures
            r == has_fresh(self@, now),
    {
        match &self.snapshot {
            None => false,
            Some(snap) => {
                let ttl = self.policy.ttl_for(&snap.value);
                if now < snap.produced_at {
                    true
                } else {
                    now - snap.produced_at <= ttl
                }
            },
        }
    }

    /// The shared read: the snapshot when it is fresh at `now`, else nothing.
    pub fn read(&self, now: u64) -> (r: Option<&Snapshot<T, E>>)
        ensures
            r is Some <==> has_fresh(self@, now),
            r is Some ==> *r->Some_0 == self@.snapshot->Some_0,
    {
        if self.is_fresh(now) {
            self.snapshot.as_ref()
        } else {
            None
        }
    }

    /// The latest snapshot, fresh or not.
    pub fn latest(&self) -> (r: Option<&Snapshot<T, E>>)
        ensures
            r is Some <==> self@.snapshot is Some,
            r is Some ==> *r->Some_0 == self@.snapshot->Some_0,
    {
        self.snapshot.as_ref()
    }

    /// The exclusive step, taken by a caller that found no fresh snapshot.
    pub fn claim(&mut self, now: u64) -> (r: Claim)
        ensures
            (final(self)@, r) == claim_step(old(self)@, now),
    {
        if self.is_fresh(now) {
            Claim::Serve
        } else if self.in_flight {
            Claim::Wait
        } else {
            self.in_flight = true;
            self.invocations = Ghost(self.invocations@ + 1);
            Claim::Regenerate
        }
    }

    /// Install the outcome of the regeneration that `claim` started.
    pub fn install(&mut self, value: Result<T, E>, now: u64)
        requires
            old(self)@.in_flight,
        ensures
            final(self)@ == install_step(old(self)@, value, now),
    {
        self.snapshot = Some(Snapshot { value, produced_at: now });
        self.in_flight = false;
    }
}

} // verus!
