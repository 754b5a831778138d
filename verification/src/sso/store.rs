//! The in-memory, bounded store of pending logins, keyed by state. Bounded so a flood cannot
//! exhaust memory, and full rather than evicting, so a flood cannot flush anyone's login.

use vstd::prelude::*;

use crate::clock::{Duration, Instant};
use crate::text::same;

#[allow(unused_imports)]
use crate::clock::elapsed;

verus! {

/// The token that ties a callback to the login it belongs to.
#[derive(Debug, Clone, PartialEq, Eq)]
pub struct State(pub String);

/// The secret a code exchange is proved with.
#[derive(Debug, Clone, PartialEq, Eq)]
pub struct PkceVerifier(String);

impl View for PkceVerifier {
    type V = Seq<char>;

    closed spec fn view(&self) -> Seq<char> {
        self.0@
    }
}

impl PkceVerifier {
    pub fn new(secret: String) -> (r: PkceVerifier)
        ensures
            r@ == secret@,
    {
        PkceVerifier(secret)
    }

    pub fn as_str(&self) -> (r: &str)
        ensures
            r@ == self@,
    {
        self.0.as_str()
    }
}

struct PendingAuth {
    state: String,
    verifier: PkceVerifier,
    created: Instant,
}

/// A pending login.
pub struct Pending {
    pub verifier: Seq<char>,
    pub created: Instant,
}

/// Returned when the store is full. The caller must not tell this from any other denial.
#[derive(Debug, Clone, Copy, PartialEq, Eq, Structural)]
pub struct PendingFull;

/// One entry per login in flight, until its callback or its end of life.
pub struct PendingAuthStore {
    entries: Vec<PendingAuth>,
    cap: usize,
    ttl: Duration,
}

/// Whether a pending login still lives at `now`.
pub open spec fn lives(p: Pending, now: Instant, ttl: Duration) -> bool {
    elapsed(now, p.created) < ttl.nanos
}

/// The pending logins that still live at `now`.
pub open spec fn living(pending: Map<Seq<char>, Pending>, now: Instant, ttl: Duration) -> Map<
    Seq<char>,
    Pending,
> {
    pending.restrict(
        pending.dom().filter(|state: Seq<char>| lives(pending[state], now, ttl)),
    )
}

spec fn keys(entries: Seq<PendingAuth>) -> Seq<Seq<char>> {
    entries.map_values(|e: PendingAuth| e.state@)
}

spec fn as_map(entries: Seq<PendingAuth>) -> Map<Seq<char>, Pending>
    decreases entries.len(),
{
    if entries.len() == 0 {
        Map::empty()
    } else {
        let e = entries.last();
        as_map(entries.drop_last()).insert(
            e.state@,
            Pending { verifier: e.verifier@, created: e.created },
        )
    }
}

spec fn pend(e: PendingAuth) -> Pending {
    Pending { verifier: e.verifier@, created: e.created }
}

proof fn lemma_has(es: Seq<PendingAuth>, k: Seq<char>)
    ensures
        as_map(es).dom().contains(k) <==> keys(es).contains(k),
    decreases es.len(),
{
    if es.len() > 0 {
        lemma_has(es.drop_last(), k);
        assert(keys(es).last() == es.last().state@);
        assert(keys(es.drop_last()) =~= keys(es).drop_last());
        if keys(es).contains(k) && es.last().state@ != k {
            let i = choose|i: int| 0 <= i < keys(es).len() && keys(es)[i] == k;
            assert(keys(es).drop_last()[i] == k);
        }
        if keys(es).drop_last().contains(k) {
            let i = choose|i: int|
                0 <= i < keys(es).drop_last().len() && keys(es).drop_last()[i] == k;
            assert(keys(es)[i] == k);
        }
    }
}

proof fn lemma_drop_last(es: Seq<PendingAuth>)
    requires
        es.len() > 0,
        keys(es).no_duplicates(),
    ensures
        keys(es.drop_last()).no_duplicates(),
        !as_map(es.drop_last()).dom().contains(es.last().state@),
        as_map(es) == as_map(es.drop_last()).insert(es.last().state@, pend(es.last())),
{
    let k = es.last().state@;
    assert(keys(es.drop_last()) =~= keys(es).drop_last());
    lemma_has(es.drop_last(), k);
    if keys(es).drop_last().contains(k) {
        let i = choose|i: int| 0 <= i < keys(es).drop_last().len() && keys(es).drop_last()[i] == k;
        assert(keys(es)[i] == keys(es)[es.len() - 1]);
    }
}

proof fn lemma_at(es: Seq<PendingAuth>, i: int)
    requires
        0 <= i < es.len(),
        keys(es).no_duplicates(),
    ensures
        as_map(es).dom().contains(es[i].state@),
        as_map(es)[es[i].state@] == pend(es[i]),
    decreases es.len(),
{
    lemma_drop_last(es);
    if i < es.len() - 1 {
        lemma_at(es.drop_last(), i);
        assert(keys(es)[i] != keys(es)[es.len() - 1]);
    }
}

proof fn lemma_count(es: Seq<PendingAuth>)
    requires
        keys(es).no_duplicates(),
    ensures
        as_map(es).dom().finite(),
        as_map(es).dom().len() == es.len(),
    decreases es.len(),
{
    if es.len() > 0 {
        lemma_drop_last(es);
        lemma_count(es.drop_last());
    }
}

proof fn lemma_push(es: Seq<PendingAuth>, e: PendingAuth)
    requires
        keys(es).no_duplicates(),
        !as_map(es).dom().contains(e.state@),
    ensures
        keys(es.push(e)).no_duplicates(),
        as_map(es.push(e)) == as_map(es).insert(e.state@, pend(e)),
{
    lemma_has(es, e.state@);
    assert(es.push(e).drop_last() =~= es);
    let ks = keys(es.push(e));
    assert(ks =~= keys(es).push(e.state@));
    assert forall|i: int, j: int| 0 <= i < ks.len() && 0 <= j < ks.len() && i != j implies ks[i]
        != ks[j] by {
        if i == es.len() {
            assert(keys(es)[j] == ks[j]);
        } else if j == es.len() {
            assert(keys(es)[i] == ks[i]);
        } else {
            assert(keys(es)[i] == ks[i] && keys(es)[j] == ks[j]);
        }
    }
}

proof fn lemma_remove(es: Seq<PendingAuth>, i: int)
    requires
        0 <= i < es.len(),
        keys(es).no_duplicates(),
    ensures
        keys(es.remove(i)).no_duplicates(),
        as_map(es.remove(i)) =~= as_map(es).remove(es[i].state@),
    decreases es.len(),
{
    lemma_drop_last(es);
    let k = es[i].state@;
    if i == es.len() - 1 {
        assert(es.remove(i) =~= es.drop_last());
    } else {
        let shorter = es.drop_last();
        lemma_remove(shorter, i);
        assert(es.remove(i) =~= shorter.remove(i).push(es.last()));
        assert(keys(es)[i] != keys(es)[es.len() - 1]);
        lemma_push(shorter.remove(i), es.last());
    }
}

/// Dropping one entry off leaves the living ones of the rest, and it, where it lives.
proof fn lemma_living(rest: Seq<PendingAuth>, now: Instant, ttl: Duration)
    requires
        rest.len() > 0,
        keys(rest).no_duplicates(),
    ensures
        living(as_map(rest), now, ttl) == (if lives(pend(rest.last()), now, ttl) {
            living(as_map(rest.drop_last()), now, ttl).insert(
                rest.last().state@,
                pend(rest.last()),
            )
        } else {
            living(as_map(rest.drop_last()), now, ttl)
        }),
        !living(as_map(rest.drop_last()), now, ttl).dom().contains(rest.last().state@),
{
    lemma_drop_last(rest);
    let m = as_map(rest.drop_last());
    let k = rest.last().state@;
    let p = pend(rest.last());
    if lives(p, now, ttl) {
        assert(living(m.insert(k, p), now, ttl) =~= living(m, now, ttl).insert(k, p));
    } else {
        assert(living(m.insert(k, p), now, ttl) =~= living(m, now, ttl));
    }
}

fn keep_living(entries: Vec<PendingAuth>, now: Instant, ttl: Duration) -> (r: Vec<PendingAuth>)
    requires
        keys(entries@).no_duplicates(),
    ensures
        keys(r@).no_duplicates(),
        as_map(r@) == living(as_map(entries@), now, ttl),
{
    let ghost all = living(as_map(entries@), now, ttl);
    let mut rest = entries;
    let mut kept: Vec<PendingAuth> = Vec::new();
    assert(all.union_prefer_right(as_map(kept@)) =~= all);
    while rest.len() > 0
        invariant
            keys(rest@).no_duplicates(),
            keys(kept@).no_duplicates(),
            all == living(as_map(rest@), now, ttl).union_prefer_right(as_map(kept@)),
            as_map(rest@).dom().disjoint(as_map(kept@).dom()),
        decreases rest.len(),
    {
        let ghost before = rest@;
        let ghost had = kept@;
        if let Some(e) = rest.pop() {
            assert(rest@ =~= before.drop_last());
            assert(e == before.last());
            proof {
                lemma_drop_last(before);
                lemma_living(before, now, ttl);
                assert(as_map(before).dom().contains(e.state@));
            }
            if now.duration_since(e.created).nanos < ttl.nanos {
                proof {
                    lemma_push(had, e);
                }
                kept.push(e);
            }
            assert(all =~= living(as_map(rest@), now, ttl).union_prefer_right(as_map(kept@)));
        }
    }
    assert(as_map(rest@) =~= Map::empty());
    assert(living(as_map(rest@), now, ttl).union_prefer_right(as_map(kept@)) =~= as_map(kept@));
    kept
}

fn find(entries: &Vec<PendingAuth>, state: &str) -> (r: Option<usize>)
    requires
        keys(entries@).no_duplicates(),
    ensures
        (match r {
            Some(i) => i < entries.len() && entries@[i as int].state@ == state@,
            None => !as_map(entries@).dom().contains(state@),
        }),
{
    let mut i: usize = 0;
    while i < entries.len()
        invariant
            i <= entries.len(),
            forall|j: int| 0 <= j < i ==> #[trigger] entries@[j].state@ != state@,
        decreases entries.len() - i,
    {
        if same(entries[i].state.as_str(), state) {
            return Some(i);
        }
        i += 1;
    }
    proof {
        lemma_has(entries@, state@);
        if keys(entries@).contains(state@) {
            let j = choose|j: int| 0 <= j < entries@.len() && keys(entries@)[j] == state@;
            assert(entries@[j].state@ == state@);
        }
    }
    None
}

impl PendingAuthStore {
    #[verifier::type_invariant]
    spec fn well_formed(&self) -> bool {
        keys(self.entries@).no_duplicates() && self.entries@.len() <= self.cap
    }

    /// The logins in flight, by state.
    pub closed spec fn pending(&self) -> Map<Seq<char>, Pending> {
        as_map(self.entries@)
    }

    /// How many there may be at once.
    pub closed spec fn cap(&self) -> usize {
        self.cap
    }

    /// How long each lives.
    pub closed spec fn ttl(&self) -> Duration {
        self.ttl
    }

    /// A store of at most `cap` pending logins, each living for `ttl`.
    pub fn new(cap: usize, ttl: Duration) -> (r: PendingAuthStore)
        ensures
            r.pending() == Map::<Seq<char>, Pending>::empty(),
            r.cap() == cap,
            r.ttl() == ttl,
    {
        PendingAuthStore { entries: Vec::new(), cap, ttl }
    }

    /// Record a pending login. Those past their time are dropped first; a store that is still
    /// full refuses, and never evicts one that lives to make room.
    pub fn begin(&mut self, state: State, verifier: PkceVerifier, now: Instant) -> (r: Result<
        (),
        PendingFull,
    >)
        ensures
            r is Ok <==> living(old(self).pending(), now, old(self).ttl()).dom().len() < old(
                self,
            ).cap(),
            final(self).pending() == (if r is Ok {
                living(old(self).pending(), now, old(self).ttl()).insert(
                    state.0@,
                    Pending { verifier: verifier@, created: now },
                )
            } else {
                living(old(self).pending(), now, old(self).ttl())
            }),
            final(self).cap() == old(self).cap(),
            final(self).ttl() == old(self).ttl(),
            final(self).pending().dom().len() <= final(self).cap(),
    {
        proof {
            use_type_invariant(&*self);
        }
        let mut entries: Vec<PendingAuth> = Vec::new();
        std::mem::swap(&mut entries, &mut self.entries);
        let mut kept = keep_living(entries, now, self.ttl);
        let ghost live = as_map(kept@);
        proof {
            lemma_count(kept@);
        }
        if kept.len() >= self.cap {
            proof {
                lemma_kept_fits(entries@, kept@, now, self.ttl);
            }
            self.entries = kept;
            return Err(PendingFull);
        }
        match find(&kept, state.0.as_str()) {
            Some(i) => {
                proof {
                    lemma_remove(kept@, i as int);
                }
                kept.remove(i);
            },
            None => {
                assert(live =~= live.remove(state.0@));
            },
        }
        assert(as_map(kept@) =~= live.remove(state.0@));
        let e = PendingAuth { state: state.0, verifier, created: now };
        proof {
            lemma_push(kept@, e);
        }
        kept.push(e);
        assert(as_map(kept@) =~= live.insert(state.0@, Pending { verifier: verifier@, created: now }));
        proof {
            lemma_count(kept@);
        }
        self.entries = kept;
        Ok(())
    }

    /// Remove and return the verifier of a state, if it is there and lives. This is the only
    /// read, so a replayed callback finds nothing.
    pub fn take(&mut self, state: &str, now: Instant) -> (r: Option<PkceVerifier>)
        ensures
            r is Some <==> old(self).pending().dom().contains(state@) && lives(
                old(self).pending()[state@],
                now,
                old(self).ttl(),
            ),
            r matches Some(v) ==> v@ == old(self).pending()[state@].verifier,
            final(self).pending() == old(self).pending().remove(state@),
            final(self).cap() == old(self).cap(),
            final(self).ttl() == old(self).ttl(),
    {
        proof {
            use_type_invariant(&*self);
        }
        let mut entries: Vec<PendingAuth> = Vec::new();
        std::mem::swap(&mut entries, &mut self.entries);
        let ghost all = entries@;
        match find(&entries, state) {
            None => {
                assert(as_map(all) =~= as_map(all).remove(state@));
                self.entries = entries;
                None
            },
            Some(i) => {
                proof {
                    lemma_at(all, i as int);
                    lemma_remove(all, i as int);
                }
                let e = entries.remove(i);
                self.entries = entries;
                if now.duration_since(e.created).nanos >= self.ttl.nanos {
                    return None;
                }
                Some(e.verifier)
            },
        }
    }
}

proof fn lemma_kept_fits(es: Seq<PendingAuth>, kept: Seq<PendingAuth>, now: Instant, ttl: Duration)
    requires
        keys(es).no_duplicates(),
        keys(kept).no_duplicates(),
        as_map(kept) == living(as_map(es), now, ttl),
    ensures
        kept.len() <= es.len(),
{
    lemma_count(es);
    lemma_count(kept);
    vstd::set_lib::lemma_len_subset(as_map(kept).dom(), as_map(es).dom());
}

/// A state can be taken once: right after, it is unknown.
pub proof fn law_take_is_single_use(pending: Map<Seq<char>, Pending>, state: Seq<char>)
    ensures
        !pending.remove(state).dom().contains(state),
{
}

/// A login that lives stays as it is through any other login's beginning, refused or not.
pub proof fn law_no_live_login_is_evicted(
    pending: Map<Seq<char>, Pending>,
    state: Seq<char>,
    other: Seq<char>,
    begun: Pending,
    now: Instant,
    ttl: Duration,
)
    requires
        pending.dom().contains(state),
        lives(pending[state], now, ttl),
        state != other,
    ensures
        living(pending, now, ttl).dom().contains(state),
        living(pending, now, ttl)[state] == pending[state],
        living(pending, now, ttl).insert(other, begun).dom().contains(state),
        living(pending, now, ttl).insert(other, begun)[state] == pending[state],
{
}

/// A state is taken with the very secret it was begun with, while it lives, and is gone after;
/// no other is touched.
pub proof fn law_a_state_gives_back_its_secret(
    store: &mut PendingAuthStore,
    state: &str,
    now: Instant,
    other: Seq<char>,
    r: Option<PkceVerifier>,
)
    requires
        call_ensures(PendingAuthStore::take, (store, state, now), r),
    ensures
        r is Some <==> old(store).pending().dom().contains(state@) && elapsed(
            now,
            old(store).pending()[state@].created,
        ) < old(store).ttl().nanos,
        (r matches Some(v) ==> v@ == old(store).pending()[state@].verifier),
        !final(store).pending().dom().contains(state@),
        other != state@ && old(store).pending().dom().contains(other) ==> final(store).pending().dom().contains(other) && final(store).pending()[other] == old(
            store,
        ).pending()[other],
{
}

/// A login that was begun is there with its secret and its time, and only the ones past their
/// time are gone.
pub proof fn law_a_begun_state_is_kept(
    store: &mut PendingAuthStore,
    state: State,
    verifier: PkceVerifier,
    now: Instant,
    other: Seq<char>,
    r: Result<(), PendingFull>,
)
    requires
        call_ensures(PendingAuthStore::begin, (store, state, verifier, now), r),
    ensures
        r is Ok ==> final(store).pending().dom().contains(state.0@) && final(store).pending()[state.0@] == (Pending { verifier: verifier@, created: now }),
        other != state.0@ ==> (final(store).pending().dom().contains(other) <==> old(
            store,
        ).pending().dom().contains(other) && lives(
            old(store).pending()[other],
            now,
            old(store).ttl(),
        )),
        other != state.0@ && final(store).pending().dom().contains(other) ==> final(store).pending()[other] == old(store).pending()[other],
        final(store).ttl() == old(store).ttl(),
        final(store).cap() == old(store).cap(),
{
}

/// A login lives until its time is over and not a moment longer.
pub proof fn law_logins_live_for_their_time(p: Pending, now: Instant, later: Instant, ttl: Duration)
    requires
        p.created.nanos <= now.nanos <= later.nanos,
    ensures
        lives(p, now, ttl) <==> now.nanos - p.created.nanos < ttl.nanos,
        lives(p, later, ttl) ==> lives(p, now, ttl),
{
}

} // verus!
