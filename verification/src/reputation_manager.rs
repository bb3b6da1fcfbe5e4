//! Reputation balances: earned by voting, spent or burned by the hub, and
//! decayed once per epoch that a user has not been touched.

use vstd::prelude::*;
use vstd::hash_map::StringHashMap;
use vstd::string::StringExecFns;

use crate::errors::Error;
use crate::math;
use crate::math::{spec_decay, BASIS_POINTS};
use crate::types::{log_view, Event, EventView};

verus! {

broadcast use vstd::hash_map::group_hash_map_axioms;

/// `value` after `n` decay steps of `decay_bps` basis points each.
pub open spec fn decay_times(value: int, decay_bps: int, n: nat) -> int
    decreases n,
{
    if n == 0 {
        value
    } else {
        spec_decay(decay_times(value, decay_bps, (n - 1) as nat), decay_bps)
    }
}

/// When pending decay is safe to apply, the decayed balance lies between zero and
/// the stored balance, and equals it when no decay is pending.
pub proof fn lemma_decay_times_bounds_if_safe(r: &ReputationManager, user: Seq<char>)
    requires
        r.decay_is_safe(user),
    ensures
        r.pending_epochs(user) == 0 ==> r.decayed_balance(user) == r.balance(user),
        0 <= r.decayed_balance(user) <= r.balance(user),
{
    if r.pending_epochs(user) != 0 {
        lemma_decay_times_bounds(r.balance(user) as int, r.decay_rate_bps as int, r.charged_epochs(user));
    }
}

/// Repeated decay keeps a value between zero and where it started.
pub proof fn lemma_decay_times_bounds(value: int, decay_bps: int, n: nat)
    requires
        0 <= value,
        0 <= decay_bps <= BASIS_POINTS as int,
    ensures
        0 <= decay_times(value, decay_bps, n) <= value,
    decreases n,
{
    if n > 0 {
        lemma_decay_times_bounds(value, decay_bps, (n - 1) as nat);
        math::lemma_decay_bounds(decay_times(value, decay_bps, (n - 1) as nat), decay_bps);
    }
}

/// At a rate of zero, decay leaves a value as it is.
pub proof fn lemma_decay_times_zero_rate(value: int, n: nat)
    ensures
        decay_times(value, 0, n) == value,
    decreases n,
{
    if n > 0 {
        lemma_decay_times_zero_rate(value, (n - 1) as nat);
        assert(spec_decay(value, 0) == value) by (nonlinear_arith);
    }
}

/// Once decay has brought a non-negative value to zero, further steps keep it there.
pub proof fn lemma_decay_times_from_zero(value: int, decay_bps: int, i: nat, n: nat)
    requires
        i <= n,
        decay_times(value, decay_bps, i) == 0,
    ensures
        decay_times(value, decay_bps, n) == 0,
    decreases n,
{
    if n > i {
        lemma_decay_times_from_zero(value, decay_bps, i, (n - 1) as nat);
    }
}

pub struct ReputationManager {
    pub wave_scoping: String,
    pub decay_rate_bps: u64,
    pub reputation_weight_divisor: u64,
    pub balances: StringHashMap<u64>,
    pub last_decay_epoch: StringHashMap<u64>,
    pub current_epoch: u64,
    pub events: Vec<Event>,
}

impl ReputationManager {
    /// The stored balances, by user.
    pub open spec fn balances(&self) -> Map<Seq<char>, u64> {
        self.balances@
    }

    /// The epoch at which each user's balance was last decayed.
    pub open spec fn last_decay(&self) -> Map<Seq<char>, u64> {
        self.last_decay_epoch@
    }

    /// A user's stored balance; zero for a user never seen.
    pub open spec fn balance(&self, user: Seq<char>) -> u64 {
        if self.balances().contains_key(user) {
            self.balances()[user]
        } else {
            0
        }
    }

    /// The last epoch at which a user's balance was decayed; zero for a user never seen.
    pub open spec fn last_epoch(&self, user: Seq<char>) -> u64 {
        if self.last_decay().contains_key(user) {
            self.last_decay()[user]
        } else {
            0
        }
    }

    /// Epochs that have passed since the user's balance was last decayed.
    pub open spec fn pending_epochs(&self, user: Seq<char>) -> int {
        self.current_epoch - self.last_epoch(user)
    }

    /// Decay steps charged at the next touch: one per pending epoch.
    pub open spec fn charged_epochs(&self, user: Seq<char>) -> nat {
        if self.pending_epochs(user) > 0 {
            self.pending_epochs(user) as nat
        } else {
            0
        }
    }

    /// The balance the user will have once pending decay is applied.
    pub open spec fn decayed_balance(&self, user: Seq<char>) -> int {
        decay_times(self.balance(user) as int, self.decay_rate_bps as int, self.charged_epochs(user))
    }

    /// Applying pending decay to this user's balance cannot overflow or underflow.
    pub open spec fn decay_is_safe(&self, user: Seq<char>) -> bool {
        self.pending_epochs(user) == 0 || (self.decay_rate_bps <= BASIS_POINTS
            && self.balance(user) * (BASIS_POINTS - self.decay_rate_bps) <= u64::MAX)
    }

    /// Stored balances once the user's pending decay is applied.
    pub open spec fn balances_after_decay(&self, user: Seq<char>) -> Map<Seq<char>, u64> {
        if self.pending_epochs(user) == 0 {
            self.balances()
        } else {
            self.balances().insert(user, self.decayed_balance(user) as u64)
        }
    }

    /// Last-decay epochs once the user's pending decay is applied.
    pub open spec fn last_decay_after_decay(&self, user: Seq<char>) -> Map<Seq<char>, u64> {
        if self.pending_epochs(user) == 0 {
            self.last_decay()
        } else {
            self.last_decay().insert(user, self.current_epoch)
        }
    }

    /// Events emitted when the user's pending decay is applied.
    pub open spec fn decay_log(&self, user: Seq<char>) -> Seq<EventView> {
        if self.pending_epochs(user) == 0 {
            Seq::empty()
        } else {
            seq![EventView::ReputationDecayed { user, new_balance: self.decayed_balance(user) as u64 }]
        }
    }

    /// No user was last decayed in an epoch that has not yet begun.
    pub open spec fn wf(&self) -> bool {
        forall|u: Seq<char>| #[trigger]
            self.last_decay().contains_key(u) ==> self.last_decay()[u] <= self.current_epoch
    }

    pub fn new(wave_scoping: &str, decay_rate_bps: u64, divisor: u64) -> (r: Self)
        ensures
            r.wf(),
            r.wave_scoping@ == wave_scoping@,
            r.decay_rate_bps == decay_rate_bps,
            r.reputation_weight_divisor == divisor,
            r.balances() == Map::<Seq<char>, u64>::empty(),
            r.last_decay() == Map::<Seq<char>, u64>::empty(),
            r.current_epoch == 0,
            r.events@ == Seq::<Event>::empty(),
    {
        ReputationManager {
            wave_scoping: String::from_str(wave_scoping),
            decay_rate_bps,
            reputation_weight_divisor: divisor,
            balances: StringHashMap::new(),
            last_decay_epoch: StringHashMap::new(),
            current_epoch: 0,
            events: Vec::new(),
        }
    }

    /// The user's balance with any pending decay applied; zero for a user never seen.
    pub fn balance_of(&self, user: &str) -> (r: u64)
        requires
            self.wf(),
            self.decay_is_safe(user@),
        ensures
            r == self.decayed_balance(user@),
    {
        self.decayed_balance_of(user)
    }

    /// The user's balance as stored, before any pending decay.
    fn stored_balance(&self, user: &str) -> (r: u64)
        ensures
            r == self.balance(user@),
    {
        match self.balances.get(user) {
            Some(b) => *b,
            None => 0,
        }
    }

    /// The user's stored balance after one decay step per pending epoch.
    fn decayed_balance_of(&self, user: &str) -> (r: u64)
        requires
            self.wf(),
            self.decay_is_safe(user@),
        ensures
            r == self.decayed_balance(user@),
    {
        let last = match self.last_decay_epoch.get(user) {
            Some(e) => *e,
            None => 0,
        };
        assert(last <= self.current_epoch);
        let epochs_passed = self.current_epoch - last;
        let start = self.stored_balance(user);
        if epochs_passed == 0 {
            return start;
        }
        let mut balance = start;
        let rate = self.decay_rate_bps;
        if rate == 0 {
            proof {
                lemma_decay_times_zero_rate(start as int, epochs_passed as nat);
            }
            return start;
        }
        let mut i: u64 = 0;
        while i < epochs_passed
            invariant
                i <= epochs_passed,
                epochs_passed == self.charged_epochs(user@),
                start == self.balance(user@),
                rate == self.decay_rate_bps,
                rate <= BASIS_POINTS,
                start * (BASIS_POINTS - rate) <= u64::MAX,
                balance == decay_times(start as int, rate as int, i as nat),
            decreases epochs_passed - i,
        {
            if balance == 0 {
                proof {
                    lemma_decay_times_from_zero(start as int, rate as int, i as nat, epochs_passed as nat);
                }
                return 0;
            }
            proof {
                lemma_decay_times_bounds(start as int, rate as int, i as nat);
                assert(balance * (BASIS_POINTS - rate) <= start * (BASIS_POINTS - rate))
                    by (nonlinear_arith)
                    requires
                        balance <= start,
                        rate <= 10000,
                ;
            }
            balance = math::decay(balance, rate);
            i += 1;
        }
        balance
    }

    fn apply_decay(&mut self, user: &str)
        requires
            old(self).wf(),
            old(self).decay_is_safe(user@),
        ensures
            final(self).wf(),
            final(self).balances() == old(self).balances_after_decay(user@),
            final(self).last_decay() == old(self).last_decay_after_decay(user@),
            log_view(final(self).events@) == log_view(old(self).events@) + old(self).decay_log(user@),
            final(self).current_epoch == old(self).current_epoch,
            final(self).decay_rate_bps == old(self).decay_rate_bps,
            final(self).reputation_weight_divisor == old(self).reputation_weight_divisor,
            final(self).wave_scoping == old(self).wave_scoping,
    {
        let last = match self.last_decay_epoch.get(user) {
            Some(e) => *e,
            None => 0,
        };
        assert(last <= self.current_epoch);
        if self.current_epoch - last == 0 {
            assert(log_view(self.events@) =~= log_view(old(self).events@) + Seq::empty());
            return;
        }
        let balance = self.decayed_balance_of(user);
        self.balances.insert(String::from_str(user), balance);
        self.last_decay_epoch.insert(String::from_str(user), self.current_epoch);
        let ghost before = self.events@;
        self.events.push(Event::ReputationDecayed { user: String::from_str(user), new_balance: balance });
        proof {
            assert(self.events@ == before.push(self.events@.last()));
            assert(log_view(self.events@) =~= log_view(before) + old(self).decay_log(user@));
        }
    }

    /// Two managers agree on everything but balances, decay epochs and events.
    pub open spec fn same_settings(&self, other: &Self) -> bool {
        &&& self.wave_scoping@ == other.wave_scoping@
        &&& self.decay_rate_bps == other.decay_rate_bps
        &&& self.reputation_weight_divisor == other.reputation_weight_divisor
        &&& self.current_epoch == other.current_epoch
    }

    /// Minting for `user` can neither overflow nor underflow.
    pub open spec fn can_mint(&self, user: Seq<char>, amount: u64) -> bool {
        user.len() > 0 ==> self.decay_is_safe(user) && self.decayed_balance(user) + amount <= u64::MAX
    }

    /// Adds `amount` to the user's balance once pending decay is applied.
    pub fn mint_reputation(&mut self, user: &str, amount: u64) -> (r: Result<(), Error>)
        requires
            old(self).wf(),
            old(self).can_mint(user@, amount),
        ensures
            final(self).wf(),
            final(self).same_settings(old(self)),
            user@.len() == 0 ==> r == Err::<(), Error>(Error::ZeroAddress) && *final(self) == *old(self),
            user@.len() > 0 ==> {
                &&& r == Ok::<(), Error>(())
                &&& final(self).balances() == old(self).balances().insert(
                    user@,
                    (old(self).decayed_balance(user@) + amount) as u64,
                )
                &&& final(self).last_decay() == old(self).last_decay_after_decay(user@)
                &&& log_view(final(self).events@) == log_view(old(self).events@) + old(self).decay_log(
                    user@,
                ) + seq![EventView::ReputationMinted { user: user@, amount }]
            },
    {
        if user.is_empty() {
            return Err(Error::ZeroAddress);
        }
        proof {
            lemma_decay_times_bounds_if_safe(&*self, user@);
        }
        self.apply_decay(user);
        let balance = self.stored_balance(user);
        self.balances.insert(String::from_str(user), balance + amount);
        let ghost before = self.events@;
        self.events.push(Event::ReputationMinted { user: String::from_str(user), amount });
        proof {
            assert(self.events@ == before.push(self.events@.last()));
            assert(log_view(self.events@) =~= log_view(before) + seq![EventView::ReputationMinted { user: user@, amount }]);
            assert(self.balances() =~= old(self).balances().insert(user@, (old(self).decayed_balance(user@) + amount) as u64));
        }
        Ok(())
    }

    /// Removes `amount` from the user's balance once pending decay is applied;
    /// refused when the decayed balance is smaller than `amount`.
    pub fn burn_reputation(&mut self, user: &str, amount: u64) -> (r: Result<(), Error>)
        requires
            old(self).wf(),
            user@.len() > 0 ==> old(self).decay_is_safe(user@),
        ensures
            final(self).wf(),
            final(self).same_settings(old(self)),
            user@.len() == 0 ==> r == Err::<(), Error>(Error::ZeroAddress) && *final(self) == *old(self),
            user@.len() > 0 ==> {
                let have = old(self).decayed_balance(user@);
                &&& final(self).last_decay() == old(self).last_decay_after_decay(user@)
                &&& have < amount ==> {
                    &&& r matches Err(Error::InsufficientReputation(u, h, n))
                        && u@ == user@ && h == have && n == amount
                    &&& final(self).balances() == old(self).balances().insert(user@, have as u64)
                    &&& log_view(final(self).events@) == log_view(old(self).events@)
                        + old(self).decay_log(user@)
                }
                &&& have >= amount ==> {
                    &&& r == Ok::<(), Error>(())
                    &&& final(self).balances() == old(self).balances().insert(user@, (have - amount) as u64)
                    &&& log_view(final(self).events@) == log_view(old(self).events@)
                        + old(self).decay_log(user@)
                        + seq![EventView::ReputationBurned { user: user@, amount }]
                }
            },
    {
        if user.is_empty() {
            return Err(Error::ZeroAddress);
        }
        proof {
            lemma_decay_times_bounds_if_safe(&*self, user@);
        }
        self.apply_decay(user);
        let balance = self.stored_balance(user);
        self.balances.insert(String::from_str(user), balance);
        if balance < amount {
            proof {
                assert(self.balances() =~= old(self).balances().insert(user@, balance));
                assert(log_view(self.events@) =~= log_view(old(self).events@) + old(self).decay_log(user@));
            }
            return Err(Error::InsufficientReputation(String::from_str(user), balance, amount));
        }
        self.balances.insert(String::from_str(user), balance - amount);
        let ghost before = self.events@;
        self.events.push(Event::ReputationBurned { user: String::from_str(user), amount });
        proof {
            assert(self.events@ == before.push(self.events@.last()));
            assert(log_view(self.events@) =~= log_view(before) + seq![EventView::ReputationBurned { user: user@, amount }]);
            assert(self.balances() =~= old(self).balances().insert(user@, (balance - amount) as u64));
        }
        Ok(())
    }

    /// Like burning, but a shortfall is answered with `Ok(false)` instead of an error.
    pub fn consume_reputation(&mut self, user: &str, amount: u64) -> (r: Result<bool, Error>)
        requires
            old(self).wf(),
            user@.len() > 0 ==> old(self).decay_is_safe(user@),
        ensures
            final(self).wf(),
            final(self).same_settings(old(self)),
            user@.len() == 0 ==> r == Err::<bool, Error>(Error::ZeroAddress) && *final(self) == *old(self),
            user@.len() > 0 ==> {
                let have = old(self).decayed_balance(user@);
                &&& final(self).last_decay() == old(self).last_decay_after_decay(user@)
                &&& r == Ok::<bool, Error>(have >= amount)
                &&& have < amount ==> {
                    &&& final(self).balances() == old(self).balances().insert(user@, have as u64)
                    &&& log_view(final(self).events@) == log_view(old(self).events@)
                        + old(self).decay_log(user@)
                }
                &&& have >= amount ==> {
                    &&& final(self).balances() == old(self).balances().insert(user@, (have - amount) as u64)
                    &&& log_view(final(self).events@) == log_view(old(self).events@)
                        + old(self).decay_log(user@)
                        + seq![EventView::ReputationBurned { user: user@, amount }]
                }
            },
    {
        if user.is_empty() {
            return Err(Error::ZeroAddress);
        }
        proof {
            lemma_decay_times_bounds_if_safe(&*self, user@);
        }
        self.apply_decay(user);
        let balance = self.stored_balance(user);
        self.balances.insert(String::from_str(user), balance);
        if balance < amount {
            proof {
                assert(self.balances() =~= old(self).balances().insert(user@, balance));
                assert(log_view(self.events@) =~= log_view(old(self).events@) + old(self).decay_log(user@));
            }
            return Ok(false);
        }
        self.balances.insert(String::from_str(user), balance - amount);
        let ghost before = self.events@;
        self.events.push(Event::ReputationBurned { user: String::from_str(user), amount });
        proof {
            assert(self.events@ == before.push(self.events@.last()));
            assert(log_view(self.events@) =~= log_view(before) + seq![EventView::ReputationBurned { user: user@, amount }]);
            assert(self.balances() =~= old(self).balances().insert(user@, (balance - amount) as u64));
        }
        Ok(true)
    }

    /// Starts a new epoch; every balance not touched since owes one more decay step.
    pub fn decay_all(&mut self)
        requires
            old(self).wf(),
            old(self).current_epoch < u64::MAX,
        ensures
            final(self).wf(),
            final(self).current_epoch == old(self).current_epoch + 1,
            final(self).wave_scoping@ == old(self).wave_scoping@,
            final(self).decay_rate_bps == old(self).decay_rate_bps,
            final(self).reputation_weight_divisor == old(self).reputation_weight_divisor,
            final(self).balances() == old(self).balances(),
            final(self).last_decay() == old(self).last_decay(),
            log_view(final(self).events@) == log_view(old(self).events@)
                + seq![EventView::EpochAdvanced { epoch: final(self).current_epoch }],
            forall|u: Seq<char>| #[trigger]
                final(self).decayed_balance(u) == spec_decay(
                    old(self).decayed_balance(u),
                    old(self).decay_rate_bps as int,
                ),
    {
        self.current_epoch += 1;
        let ghost before = self.events@;
        self.events.push(Event::EpochAdvanced { epoch: self.current_epoch });
        proof {
            assert(self.events@ == before.push(self.events@.last()));
            assert(log_view(self.events@) =~= log_view(before) + seq![EventView::EpochAdvanced { epoch: self.current_epoch }]);
            assert forall|u: Seq<char>| #[trigger] self.last_decay().contains_key(u) implies
                self.last_decay()[u] <= self.current_epoch by {
                assert(old(self).last_decay().contains_key(u));
            }
            assert forall|u: Seq<char>| #[trigger]
                self.decayed_balance(u) == spec_decay(
                    old(self).decayed_balance(u),
                    old(self).decay_rate_bps as int,
                ) by {
                assert(self.balance(u) == old(self).balance(u));
                assert(old(self).last_decay().contains_key(u) ==> old(self).last_decay()[u]
                    <= old(self).current_epoch);
                assert(self.pending_epochs(u) == old(self).pending_epochs(u) + 1);
                assert(self.charged_epochs(u) == old(self).charged_epochs(u) + 1);
                assert((self.charged_epochs(u) - 1) as nat == old(self).charged_epochs(u));
            }
        }
    }

    /// Voting weight granted by a reputation balance: one for one.
    pub fn reputation_to_weight(&self, reputation: u64) -> (r: u64)
        ensures
            r == reputation,
    {
        reputation
    }
}

/// Pending decay never raises a balance.
pub proof fn law_decay_never_raises_balance(r: ReputationManager, user: Seq<char>)
    requires
        r.decay_rate_bps <= BASIS_POINTS,
    ensures
        0 <= r.decayed_balance(user) <= r.balance(user),
{
    lemma_decay_times_bounds(r.balance(user) as int, r.decay_rate_bps as int, r.charged_epochs(user));
}

/// Burning what was just minted gives back the balance the mint started from:
/// after minting `amount`, no decay is pending for the user and the decayed
/// balance is exactly `amount` above the one before the mint.
pub proof fn law_burn_undoes_mint(r0: ReputationManager, r1: ReputationManager, user: Seq<char>, amount: u64)
    requires
        r0.wf(),
        r1.same_settings(&r0),
        r1.balances() == r0.balances().insert(user, (r0.decayed_balance(user) + amount) as u64),
        r1.last_decay() == r0.last_decay_after_decay(user),
        r0.decayed_balance(user) + amount <= u64::MAX,
        r0.decay_is_safe(user),
    ensures
        r1.pending_epochs(user) == 0,
        r1.decayed_balance(user) == r0.decayed_balance(user) + amount,
        r1.decayed_balance(user) - amount == r0.decayed_balance(user),
{
    lemma_decay_times_bounds_if_safe(&r0, user);
    if r0.pending_epochs(user) == 0 {
        assert(r1.last_epoch(user) == r0.last_epoch(user));
    } else {
        assert(r1.last_decay().contains_key(user));
    }
}

/// Every new epoch decays every dormant balance by one more step, however long
/// it has lain dormant, and so never raises it: after `decay_all`, a user's
/// balance is the previous one decayed once.
pub proof fn law_epoch_decays_dormant_balance(r0: ReputationManager, r1: ReputationManager, user: Seq<char>)
    requires
        r0.wf(),
        r0.decay_rate_bps <= BASIS_POINTS,
        r1.balances() == r0.balances(),
        r1.last_decay() == r0.last_decay(),
        r1.decay_rate_bps == r0.decay_rate_bps,
        r1.current_epoch == r0.current_epoch + 1,
    ensures
        r1.decayed_balance(user) == spec_decay(r0.decayed_balance(user), r0.decay_rate_bps as int),
        r1.decayed_balance(user) <= r0.decayed_balance(user),
{
    assert(r1.last_epoch(user) == r0.last_epoch(user));
    assert(r0.last_decay().contains_key(user) ==> r0.last_decay()[user] <= r0.current_epoch);
    assert(r1.pending_epochs(user) == r0.pending_epochs(user) + 1);
    assert(r1.charged_epochs(user) == r0.charged_epochs(user) + 1);
    assert((r1.charged_epochs(user) - 1) as nat == r0.charged_epochs(user));
    lemma_decay_times_bounds(r0.balance(user) as int, r0.decay_rate_bps as int, r0.charged_epochs(user));
    math::lemma_decay_bounds(r0.decayed_balance(user), r0.decay_rate_bps as int);
}


/// A user's balance with pending decay applied is the stored balance decayed
/// once for every epoch since it was last decayed, each step keeping
/// `10000 - rate` basis points, rounded down.
pub proof fn law_decayed_balance(r: ReputationManager, user: Seq<char>, n: nat)
    requires
        r.wf(),
    ensures
        r.decayed_balance(user) == decay_times(
            r.balance(user) as int,
            r.decay_rate_bps as int,
            (r.current_epoch - r.last_epoch(user)) as nat,
        ),
        decay_times(r.balance(user) as int, r.decay_rate_bps as int, 0) == r.balance(user),
        decay_times(r.balance(user) as int, r.decay_rate_bps as int, n + 1) == decay_times(
            r.balance(user) as int,
            r.decay_rate_bps as int,
            n,
        ) * (10000 - r.decay_rate_bps) / 10000,
{
    assert(r.last_decay().contains_key(user) ==> r.last_decay()[user] <= r.current_epoch);
    assert((n + 1 - 1) as nat == n);
}


/// What applying a user's pending decay does: with epochs pending, it stores the
/// decayed balance, records the current epoch as the last decay, and logs one
/// decay event carrying the new balance; with none pending it changes nothing.
/// A user never seen has balance zero and was last decayed at epoch zero.
pub proof fn law_pending_decay_effects(r: ReputationManager, user: Seq<char>)
    ensures
        !r.balances().contains_key(user) ==> r.balance(user) == 0,
        r.balances().contains_key(user) ==> r.balance(user) == r.balances()[user],
        !r.last_decay().contains_key(user) ==> r.last_epoch(user) == 0,
        r.last_decay().contains_key(user) ==> r.last_epoch(user) == r.last_decay()[user],
        r.pending_epochs(user) == r.current_epoch - r.last_epoch(user),
        r.current_epoch == r.last_epoch(user) ==> {
            &&& r.balances_after_decay(user) == r.balances()
            &&& r.last_decay_after_decay(user) == r.last_decay()
            &&& r.decay_log(user) == Seq::<EventView>::empty()
        },
        r.current_epoch != r.last_epoch(user) ==> {
            &&& r.balances_after_decay(user) == r.balances().insert(user, r.decayed_balance(user) as u64)
            &&& r.last_decay_after_decay(user) == r.last_decay().insert(user, r.current_epoch)
            &&& r.decay_log(user) == seq![
                EventView::ReputationDecayed { user, new_balance: r.decayed_balance(user) as u64 },
            ]
        },
{
}

} // verus!
