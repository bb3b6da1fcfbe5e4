//! The hub: access control, waves, issues and voting, delegating reputation,
//! fast-tracking and slashing to its three managers.

use vstd::prelude::*;
use vstd::hash_map::{HashMapWithView, StringHashMap};
use vstd::string::StringExecFns;

use crate::emergency_scoping::{texts, EmergencyScoping};
use crate::errors::Error;
use crate::math;
use crate::math::{spec_min, BASIS_POINTS};
use crate::pair_map::PairMap;
use crate::reputation_manager::ReputationManager;
use crate::slashing_manager::{spec_penalty, SlashingManager};
use crate::types::{
    drain_events_reversed, fresh_issue, log_view, same_text, Event, EventView, Issue, IssueView,
    ProposalView, SlashRecordView, WaveConfig, WaveData, WaveView,
};
use crate::wave;
use crate::wave::{default_hash_of_name_and_block, spec_within_voting_period};

verus! {

broadcast use {vstd::hash_map::group_hash_map_axioms, vstd::std_specs::hash::group_hash_axioms};

/// Blocks after the start of work during which points may still be changed freely.
pub const GRACE_BLOCKS: u64 = 5;

/// Reputation earned for casting a vote of `weight`.
pub open spec fn reputation_for_vote(weight: u64) -> int {
    weight / 10 + 1
}

/// An issue after a vote counting `eff`: its weight grows by `eff` and its points
/// become the new weight over `divisor`.
pub open spec fn issue_after_vote(i: IssueView, eff: u64, divisor: u64) -> IssueView {
    let cw = (i.current_weight + eff) as u64;
    IssueView { current_weight: cw, assigned_points: cw / divisor, ..i }
}

/// An issue after a fast-track adding `boost`: it is an emergency and its weight
/// grows by `boost`.
pub open spec fn issue_after_fast_track(i: IssueView, boost: int) -> IssueView {
    IssueView { is_emergency: true, current_weight: (i.current_weight + boost) as u64, ..i }
}

/// An issue after its points are set to `new_points`.
pub open spec fn issue_after_adjust(i: IssueView, new_points: u64) -> IssueView {
    IssueView { assigned_points: new_points, ..i }
}

/// An issue after `contributor` starts work on it at `block`.
pub open spec fn issue_after_start(i: IssueView, contributor: Seq<char>, block: u64) -> IssueView {
    IssueView { assigned_contributor: Some(contributor), started_at_block: block, ..i }
}

pub struct WaveScoping {
    pub owner: String,
    pub reputation_manager: ReputationManager,
    pub emergency_scoping: EmergencyScoping,
    pub slashing_manager: SlashingManager,
    pub wave_config: WaveConfig,
    pub registry: StringHashMap<Issue>,
    pub votes_by: PairMap<u64>,
    pub waves: HashMapWithView<u64, WaveData>,
    pub issue_to_wave: StringHashMap<u64>,
    pub current_wave_id: u64,
    pub total_issues: u64,
    pub total_votes: u64,
    pub block_number: u64,
    pub events: Vec<Event>,
}

impl WaveScoping {
    /// Every registered issue, by url.
    pub open spec fn issues(&self) -> Map<Seq<char>, IssueView> {
        self.registry@.map_values(|i: Issue| i@)
    }

    /// Every recorded vote weight, by (voter, issue url).
    pub open spec fn votes(&self) -> Map<(Seq<char>, Seq<char>), u64> {
        self.votes_by@
    }

    /// The wave each issue was registered in, by url.
    pub open spec fn issue_waves(&self) -> Map<Seq<char>, u64> {
        self.issue_to_wave@
    }

    /// Whether `url` names a registered issue that still exists.
    pub open spec fn is_live(&self, url: Seq<char>) -> bool {
        self.issues().contains_key(url) && self.issues()[url].exists
    }

    pub open spec fn wf(&self) -> bool {
        &&& self.reputation_manager.wf()
        &&& self.emergency_scoping.wf()
    }

    /// Only the owner may call: refused with `NotOwner` otherwise.
    pub open spec fn is_owner(&self, caller: Seq<char>) -> bool {
        caller == self.owner@
    }

    /// Refused when the maximum slashing penalty exceeds one hundred percent.
    pub fn new(
        owner: &str,
        voting_period_blocks: u64,
        emergency_timelock: u64,
        max_weight_per_vote: u64,
        points_divisor: u64,
        decay_rate_bps: u64,
        slash_max_bps: u64,
        slash_burn_rate_bps: u64,
    ) -> (r: Result<Self, Error>)
        ensures
            slash_max_bps > BASIS_POINTS ==> r == Err::<Self, Error>(Error::PenaltyExceedsMax),
            slash_max_bps <= BASIS_POINTS ==> (r matches Ok(h) && {
                let hub_id = "hub:"@ + owner@;
                &&& h.wf()
                &&& h.owner@ == owner@
                &&& h.wave_config == (WaveConfig {
                    voting_period_blocks,
                    emergency_timelock,
                    max_weight_per_vote,
                    points_divisor,
                })
                &&& h.reputation_manager.wave_scoping@ == hub_id
                &&& h.reputation_manager.decay_rate_bps == decay_rate_bps
                &&& h.reputation_manager.reputation_weight_divisor == points_divisor
                &&& h.reputation_manager.balances() == Map::<Seq<char>, u64>::empty()
                &&& h.reputation_manager.last_decay() == Map::<Seq<char>, u64>::empty()
                &&& h.reputation_manager.current_epoch == 0
                &&& h.reputation_manager.events@ == Seq::<Event>::empty()
                &&& h.emergency_scoping.wave_scoping@ == hub_id
                &&& h.emergency_scoping.timelock_blocks == emergency_timelock
                &&& h.emergency_scoping.proposal_map().is_empty()
                &&& h.emergency_scoping.proposal_list@ == Seq::<String>::empty()
                &&& h.emergency_scoping.events@ == Seq::<Event>::empty()
                &&& h.slashing_manager.wave_scoping@ == hub_id
                &&& h.slashing_manager.max_penalty_bps == slash_max_bps
                &&& h.slashing_manager.burn_rate_bps == slash_burn_rate_bps
                &&& h.slashing_manager.records().is_empty()
                &&& h.slashing_manager.total_slashed@ == Map::<Seq<char>, u64>::empty()
                &&& h.slashing_manager.events@ == Seq::<Event>::empty()
                &&& h.issues() == Map::<Seq<char>, IssueView>::empty()
                &&& h.votes() == Map::<(Seq<char>, Seq<char>), u64>::empty()
                &&& h.waves@ == Map::<u64, WaveData>::empty()
                &&& h.issue_waves() == Map::<Seq<char>, u64>::empty()
                &&& h.current_wave_id == 0
                &&& h.total_issues == 0
                &&& h.total_votes == 0
                &&& h.block_number == 0
                &&& h.events@ == Seq::<Event>::empty()
            }),
    {
        let wave_config = WaveConfig {
            voting_period_blocks,
            emergency_timelock,
            max_weight_per_vote,
            points_divisor,
        };
        let mut hub_id = String::from_str("hub:");
        hub_id.append(owner);
        let slashing_manager = match SlashingManager::new(
            hub_id.as_str(),
            slash_max_bps,
            slash_burn_rate_bps,
        ) {
            Ok(m) => m,
            Err(e) => {
                return Err(e);
            },
        };
        let h = WaveScoping {
            owner: String::from_str(owner),
            reputation_manager: ReputationManager::new(hub_id.as_str(), decay_rate_bps, points_divisor),
            emergency_scoping: EmergencyScoping::new(hub_id.as_str(), emergency_timelock),
            slashing_manager,
            wave_config,
            registry: StringHashMap::new(),
            votes_by: PairMap::new(),
            waves: HashMapWithView::new(),
            issue_to_wave: StringHashMap::new(),
            current_wave_id: 0,
            total_issues: 0,
            total_votes: 0,
            block_number: 0,
            events: Vec::new(),
        };
        assert(h.issues() =~= Map::<Seq<char>, IssueView>::empty());
        Ok(h)
    }

    /// Hands ownership to `new_owner`; only the owner may, and not to an empty name.
    pub fn set_owner(&mut self, caller: &str, new_owner: &str) -> (r: Result<(), Error>)
        ensures
            !old(self).is_owner(caller@) ==> r == Err::<(), Error>(Error::NotOwner) && *final(self)
                == *old(self),
            old(self).is_owner(caller@) && new_owner@.len() == 0 ==> r == Err::<(), Error>(
                Error::ZeroAddress,
            ) && *final(self) == *old(self),
            old(self).is_owner(caller@) && new_owner@.len() > 0 ==> {
                &&& r == Ok::<(), Error>(())
                &&& final(self).owner@ == new_owner@
                &&& *final(self) == (WaveScoping { owner: final(self).owner, ..*old(self) })
            },
    {
        if !same_text(caller, self.owner.as_str()) {
            return Err(Error::NotOwner);
        }
        if new_owner.is_empty() {
            return Err(Error::ZeroAddress);
        }
        self.owner = String::from_str(new_owner);
        Ok(())
    }

    /// Opens a wave named `name` that runs from the current block for
    /// `duration_blocks` blocks and makes it the current wave; returns its id,
    /// the digest of its name and starting block. Only the owner may.
    pub fn create_wave(&mut self, caller: &str, name: &str, duration_blocks: u64) -> (r: Result<
        u64,
        Error,
    >)
        requires
            old(self).is_owner(caller@) ==> old(self).block_number + duration_blocks <= u64::MAX,
        ensures
            !old(self).is_owner(caller@) ==> r == Err::<u64, Error>(Error::NotOwner) && *final(self)
                == *old(self),
            old(self).is_owner(caller@) ==> {
                let id = default_hash_of_name_and_block(name@, old(self).block_number);
                &&& r == Ok::<u64, Error>(id)
                &&& final(self).opened_wave(old(self), id, name@, duration_blocks)
            },
    {
        if !same_text(caller, self.owner.as_str()) {
            return Err(Error::NotOwner);
        }
        let wave_id = wave::encode_wave_id(name, self.block_number);
        self.create_wave_with_id(caller, name, duration_blocks, wave_id)
    }

    /// This hub is `before` with wave `id`, named `name` and running from the
    /// current block for `duration_blocks` blocks, opened and made current.
    pub open spec fn opened_wave(
        &self,
        before: &WaveScoping,
        id: u64,
        name: Seq<char>,
        duration_blocks: u64,
    ) -> bool {
        let end = (before.block_number + duration_blocks) as u64;
        &&& self.waves@.contains_key(id)
        &&& self.waves@[id]@ == (WaveView {
            id,
            name,
            start_block: before.block_number,
            end_block: end,
            is_active: true,
            is_finalized: false,
            total_weight_cast: 0,
            issue_count: 0,
        })
        &&& self.waves@.remove(id) == before.waves@.remove(id)
        &&& log_view(self.events@) == log_view(before.events@).push(
            EventView::WaveCreated { id, name, end_block: end },
        )
        &&& *self == (WaveScoping {
            waves: self.waves,
            current_wave_id: id,
            events: self.events,
            ..*before
        })
    }

    /// Opens a wave named `name` under the identifier `wave_id`, as `create_wave`
    /// does once it has computed the identifier; only the owner may.
    pub fn create_wave_with_id(
        &mut self,
        caller: &str,
        name: &str,
        duration_blocks: u64,
        wave_id: u64,
    ) -> (r: Result<u64, Error>)
        requires
            old(self).is_owner(caller@) ==> old(self).block_number + duration_blocks <= u64::MAX,
        ensures
            !old(self).is_owner(caller@) ==> r == Err::<u64, Error>(Error::NotOwner) && *final(self)
                == *old(self),
            old(self).is_owner(caller@) ==> {
                &&& r == Ok::<u64, Error>(wave_id)
                &&& final(self).opened_wave(old(self), wave_id, name@, duration_blocks)
            },
    {
        if !same_text(caller, self.owner.as_str()) {
            return Err(Error::NotOwner);
        }
        let end_block = self.block_number + duration_blocks;
        let data = WaveData {
            id: wave_id,
            name: String::from_str(name),
            start_block: self.block_number,
            end_block,
            is_active: true,
            is_finalized: false,
            total_weight_cast: 0,
            issue_count: 0,
        };
        self.waves.insert(wave_id, data);
        self.current_wave_id = wave_id;
        let ghost events0 = self.events@;
        self.events.push(Event::WaveCreated { id: wave_id, name: String::from_str(name), end_block });
        proof {
            assert(self.events@ == events0.push(self.events@.last()));
            assert(log_view(self.events@) =~= log_view(events0).push(
                EventView::WaveCreated { id: wave_id, name: name@, end_block },
            ));
            assert(self.waves@.remove(wave_id) =~= old(self).waves@.remove(wave_id));
        }
        Ok(wave_id)
    }

    /// Registering an issue overflows no counter.
    pub open spec fn can_register(&self) -> bool {
        &&& self.total_issues < u64::MAX
        &&& self.waves@.contains_key(self.current_wave_id) ==> self.waves@[self.current_wave_id].issue_count
            < u64::MAX
    }

    /// Registers the issue at `url` in the current wave; only the owner may, and only once.
    pub fn register_issue(&mut self, caller: &str, url: &str) -> (r: Result<(), Error>)
        requires
            old(self).is_owner(caller@) && !old(self).issues().contains_key(url@) ==> old(
                self,
            ).can_register(),
        ensures
            !old(self).is_owner(caller@) ==> r == Err::<(), Error>(Error::NotOwner) && *final(self)
                == *old(self),
            old(self).is_owner(caller@) && old(self).issues().contains_key(url@) ==> r == Err::<
                (),
                Error,
            >(Error::AlreadyRegistered) && *final(self) == *old(self),
            old(self).is_owner(caller@) && !old(self).issues().contains_key(url@) ==> {
                let cur = old(self).current_wave_id;
                &&& r == Ok::<(), Error>(())
                &&& final(self).issues() == old(self).issues().insert(url@, fresh_issue(url@))
                &&& final(self).issue_waves() == old(self).issue_waves().insert(url@, cur)
                &&& final(self).waves@ == if old(self).waves@.contains_key(cur) {
                    old(self).waves@.insert(
                        cur,
                        WaveData { issue_count: (old(self).waves@[cur].issue_count + 1) as u64, ..old(self).waves@[cur] },
                    )
                } else {
                    old(self).waves@
                }
                &&& final(self).total_issues == old(self).total_issues + 1
                &&& log_view(final(self).events@) == log_view(old(self).events@).push(
                    EventView::IssueRegistered { url: url@, wave_id: cur },
                )
                &&& *final(self) == (WaveScoping {
                    registry: final(self).registry,
                    issue_to_wave: final(self).issue_to_wave,
                    waves: final(self).waves,
                    total_issues: final(self).total_issues,
                    events: final(self).events,
                    ..*old(self)
                })
            },
    {
        if !same_text(caller, self.owner.as_str()) {
            return Err(Error::NotOwner);
        }
        if self.registry.contains_key(url) {
            return Err(Error::AlreadyRegistered);
        }
        let issue = Issue::new(url);
        self.registry.insert(String::from_str(url), issue);
        self.issue_to_wave.insert(String::from_str(url), self.current_wave_id);
        let updated = match self.waves.get(&self.current_wave_id) {
            Some(w) => {
                let mut w2 = w.duplicate();
                w2.issue_count = w2.issue_count + 1;
                Some(w2)
            },
            None => None,
        };
        match updated {
            Some(w2) => {
                self.waves.insert(self.current_wave_id, w2);
            },
            None => {},
        }
        self.total_issues = self.total_issues + 1;
        let ghost events0 = self.events@;
        self.events.push(
            Event::IssueRegistered { url: String::from_str(url), wave_id: self.current_wave_id },
        );
        proof {
            assert(self.events@ == events0.push(self.events@.last()));
            assert(log_view(self.events@) =~= log_view(events0).push(
                EventView::IssueRegistered { url: url@, wave_id: self.current_wave_id },
            ));
            assert(self.issues() =~= old(self).issues().insert(url@, fresh_issue(url@)));
        }
        Ok(())
    }

    /// Assigns the issue at `url` to `caller`, starting work at the current block;
    /// an issue is assigned at most once.
    pub fn start_work(&mut self, caller: &str, url: &str) -> (r: Result<(), Error>)
        ensures
            old(self).issues().contains_key(url@) && old(self).issues()[url@].assigned_contributor is Some
                ==> r == Err::<(), Error>(Error::PointsAlreadyAssigned) && *final(self) == *old(self),
            !old(self).issues().contains_key(url@) ==> r == Err::<(), Error>(Error::NotRegistered)
                && *final(self) == *old(self),
            old(self).issues().contains_key(url@) && old(self).issues()[url@].assigned_contributor is None
                ==> {
                &&& r == Ok::<(), Error>(())
                &&& final(self).issues() == old(self).issues().insert(
                    url@,
                    issue_after_start(old(self).issues()[url@], caller@, old(self).block_number),
                )
                &&& log_view(final(self).events@) == log_view(old(self).events@).push(
                    EventView::ContributionStarted { url: url@, contributor: caller@ },
                )
                &&& *final(self) == (WaveScoping {
                    registry: final(self).registry,
                    events: final(self).events,
                    ..*old(self)
                })
            },
    {
        let updated = match self.registry.get(url) {
            None => {
                return Err(Error::NotRegistered);
            },
            Some(issue) => {
                if issue.assigned_contributor.is_some() {
                    return Err(Error::PointsAlreadyAssigned);
                }
                let mut i2 = issue.duplicate();
                i2.assigned_contributor = Some(String::from_str(caller));
                i2.started_at_block = self.block_number;
                i2
            },
        };
        self.registry.insert(String::from_str(url), updated);
        let ghost events0 = self.events@;
        self.events.push(
            Event::ContributionStarted { url: String::from_str(url), contributor: String::from_str(caller) },
        );
        proof {
            assert(self.events@ == events0.push(self.events@.last()));
            assert(log_view(self.events@) =~= log_view(events0).push(
                EventView::ContributionStarted { url: url@, contributor: caller@ },
            ));
            assert(self.issues() =~= old(self).issues().insert(
                url@,
                IssueView {
                    assigned_contributor: Some(caller@),
                    started_at_block: old(self).block_number,
                    ..old(self).issues()[url@]
                },
            ));
        }
        Ok(())
    }

    /// The first reason finalizing wave `wave_id` would be refused, if any.
    pub open spec fn finalize_refusal(&self, caller: Seq<char>, wave_id: u64) -> Option<Error> {
        if !self.is_owner(caller) {
            Some(Error::NotOwner)
        } else if !self.waves@.contains_key(wave_id) || !self.waves@[wave_id].is_active {
            Some(Error::WaveNotActive)
        } else if self.waves@[wave_id].is_finalized {
            Some(Error::WaveAlreadyFinalized)
        } else {
            None
        }
    }

    /// Closes wave `wave_id` to further votes; only the owner may, and only once.
    pub fn finalize_wave(&mut self, caller: &str, wave_id: u64) -> (r: Result<(), Error>)
        ensures
            old(self).finalize_refusal(caller@, wave_id) matches Some(e) ==> r == Err::<(), Error>(e)
                && *final(self) == *old(self),
            old(self).finalize_refusal(caller@, wave_id) is None ==> {
                &&& r == Ok::<(), Error>(())
                &&& final(self).waves@ == old(self).waves@.insert(
                    wave_id,
                    WaveData { is_finalized: true, ..old(self).waves@[wave_id] },
                )
                &&& log_view(final(self).events@) == log_view(old(self).events@).push(
                    EventView::WaveFinalized { id: wave_id },
                )
                &&& *final(self) == (WaveScoping {
                    waves: final(self).waves,
                    events: final(self).events,
                    ..*old(self)
                })
            },
    {
        if !same_text(caller, self.owner.as_str()) {
            return Err(Error::NotOwner);
        }
        let updated = match self.waves.get(&wave_id) {
            None => {
                return Err(Error::WaveNotActive);
            },
            Some(w) => {
                if !w.is_active {
                    return Err(Error::WaveNotActive);
                }
                if w.is_finalized {
                    return Err(Error::WaveAlreadyFinalized);
                }
                let mut w2 = w.duplicate();
                w2.is_finalized = true;
                w2
            },
        };
        self.waves.insert(wave_id, updated);
        let ghost events0 = self.events@;
        self.events.push(Event::WaveFinalized { id: wave_id });
        proof {
            assert(self.events@ == events0.push(self.events@.last()));
            assert(log_view(self.events@) =~= log_view(events0).push(
                EventView::WaveFinalized { id: wave_id },
            ));
        }
        Ok(())
    }

    /// The weight, points, emergency flag and contributor of the live issue at `url`.
    pub fn get_issue(&self, url: &str) -> (r: Result<(u64, u64, bool, Option<String>), Error>)
        ensures
            !self.is_live(url@) ==> r matches Err(Error::NotRegistered),
            self.is_live(url@) ==> (r matches Ok((w, p, e, c)) && {
                let i = self.issues()[url@];
                &&& w == i.current_weight
                &&& p == i.assigned_points
                &&& e == i.is_emergency
                &&& crate::types::opt_text(c) == i.assigned_contributor
            }),
    {
        match self.registry.get(url) {
            None => Err(Error::NotRegistered),
            Some(issue) => {
                if !issue.exists {
                    return Err(Error::NotRegistered);
                }
                let contributor = match &issue.assigned_contributor {
                    Some(c) => Some(c.clone()),
                    None => None,
                };
                Ok((issue.current_weight, issue.assigned_points, issue.is_emergency, contributor))
            },
        }
    }

    pub fn get_wave(&self, wave_id: u64) -> (r: Option<&WaveData>)
        ensures
            match r {
                Some(w) => self.waves@.contains_key(wave_id) && *w == self.waves@[wave_id],
                None => !self.waves@.contains_key(wave_id),
            },
    {
        self.waves.get(&wave_id)
    }

    pub fn get_current_wave(&self) -> (r: Option<&WaveData>)
        ensures
            match r {
                Some(w) => self.waves@.contains_key(self.current_wave_id) && *w
                    == self.waves@[self.current_wave_id],
                None => !self.waves@.contains_key(self.current_wave_id),
            },
    {
        self.waves.get(&self.current_wave_id)
    }

    pub fn get_wave_config(&self) -> (r: &WaveConfig)
        ensures
            *r == self.wave_config,
    {
        &self.wave_config
    }

    /// The weight `voter` cast on `url`; zero when no vote was cast.
    pub fn get_voter_weight(&self, voter: &str, url: &str) -> (r: u64)
        ensures
            r == if self.votes().contains_key((voter@, url@)) {
                self.votes()[(voter@, url@)]
            } else {
                0
            },
    {
        match self.votes_by.get(voter, url) {
            Some(w) => *w,
            None => 0,
        }
    }

    pub fn advance_blocks(&mut self, n: u64)
        requires
            old(self).block_number + n <= u64::MAX,
        ensures
            final(self).block_number == old(self).block_number + n,
            *final(self) == (WaveScoping { block_number: final(self).block_number, ..*old(self) }),
    {
        self.block_number = self.block_number + n;
    }

    /// The first reason a vote of `weight` by `caller` on `url` would be refused, if any.
    pub open spec fn vote_refusal(&self, caller: Seq<char>, url: Seq<char>, weight: u64) -> Option<
        Error,
    > {
        if weight == 0 || weight > self.wave_config.max_weight_per_vote {
            Some(Error::InvalidWeight)
        } else if !self.is_live(url) || !self.issue_waves().contains_key(url) {
            Some(Error::NotRegistered)
        } else if !(self.waves@.contains_key(self.issue_waves()[url]) && spec_within_voting_period(
            self.waves@[self.issue_waves()[url]],
            self.block_number,
        )) {
            Some(Error::WaveNotActive)
        } else if self.votes().contains_key((caller, url)) {
            Some(Error::AlreadyVoted)
        } else {
            None
        }
    }

    /// The weight a vote of `weight` by `caller` counts for: boosted by the
    /// caller's reputation, decayed for every epoch it lay dormant, over the
    /// points divisor, and capped at the maximum.
    pub open spec fn effective_weight(&self, caller: Seq<char>, weight: u64) -> int {
        spec_min(
            weight + self.reputation_manager.decayed_balance(caller) / self.wave_config.points_divisor as int,
            self.wave_config.max_weight_per_vote as int,
        )
    }

    /// Recording this vote divides by a positive divisor and overflows nothing.
    pub open spec fn can_vote(&self, caller: Seq<char>, url: Seq<char>, weight: u64) -> bool {
        self.vote_refusal(caller, url, weight) is None ==> {
            let eff = self.effective_weight(caller, weight);
            &&& self.wave_config.points_divisor > 0
            &&& self.reputation_manager.decay_is_safe(caller)
            &&& weight + self.reputation_manager.decayed_balance(caller) / self.wave_config.points_divisor as int
                <= u64::MAX
            &&& self.issues()[url].current_weight + eff <= u64::MAX
            &&& self.waves@[self.issue_waves()[url]].total_weight_cast + eff <= u64::MAX
            &&& self.reputation_manager.can_mint(caller, reputation_for_vote(weight) as u64)
            &&& caller.len() > 0 ==> self.total_votes < u64::MAX
        }
    }

    /// Casts `caller`'s vote of `weight` on the issue at `url`: at most one vote per
    /// voter and issue, while the issue's wave takes votes. The vote counts for its
    /// effective weight, the issue's points become its weight over the points
    /// divisor, and the voter earns `weight / 10 + 1` reputation.
    pub fn vote_on_issue(&mut self, caller: &str, url: &str, weight: u64) -> (r: Result<(), Error>)
        requires
            old(self).wf(),
            old(self).can_vote(caller@, url@, weight),
        ensures
            final(self).wf(),
            old(self).vote_refusal(caller@, url@, weight) matches Some(e) ==> r == Err::<(), Error>(e)
                && *final(self) == *old(self),
            old(self).vote_refusal(caller@, url@, weight) is None ==> {
                let eff = old(self).effective_weight(caller@, weight) as u64;
                let iw = old(self).issue_waves()[url@];
                let rep = reputation_for_vote(weight) as u64;
                let rm0 = old(self).reputation_manager;
                let rm1 = final(self).reputation_manager;
                &&& final(self).votes() == old(self).votes().insert((caller@, url@), eff)
                &&& final(self).issues() == old(self).issues().insert(
                    url@,
                    issue_after_vote(
                        old(self).issues()[url@],
                        eff,
                        old(self).wave_config.points_divisor,
                    ),
                )
                &&& final(self).waves@ == old(self).waves@.insert(
                    iw,
                    WaveData {
                        total_weight_cast: (old(self).waves@[iw].total_weight_cast + eff) as u64,
                        ..old(self).waves@[iw]
                    },
                )
                &&& *final(self) == (WaveScoping {
                    votes_by: final(self).votes_by,
                    registry: final(self).registry,
                    waves: final(self).waves,
                    reputation_manager: rm1,
                    total_votes: final(self).total_votes,
                    events: final(self).events,
                    ..*old(self)
                })
                &&& caller@.len() == 0 ==> {
                    &&& r == Err::<(), Error>(Error::ZeroAddress)
                    &&& rm1 == rm0
                    &&& final(self).total_votes == old(self).total_votes
                    &&& final(self).events == old(self).events
                }
                &&& caller@.len() > 0 ==> {
                    &&& r == Ok::<(), Error>(())
                    &&& rm1.same_settings(&rm0)
                    &&& rm1.balances() == rm0.balances().insert(
                        caller@,
                        (rm0.decayed_balance(caller@) + rep) as u64,
                    )
                    &&& rm1.last_decay() == rm0.last_decay_after_decay(caller@)
                    &&& rm1.events@ == Seq::<Event>::empty()
                    &&& final(self).total_votes == old(self).total_votes + 1
                    &&& log_view(final(self).events@) == log_view(old(self).events@) + (log_view(
                        rm0.events@,
                    ) + rm0.decay_log(caller@) + seq![
                        EventView::ReputationMinted { user: caller@, amount: rep },
                    ]).reverse() + seq![
                        EventView::Voted { voter: caller@, url: url@, weight: eff },
                        EventView::ReputationEarned { voter: caller@, amount: rep },
                    ]
                }
            },
    {
        if weight == 0 || weight > self.wave_config.max_weight_per_vote {
            return Err(Error::InvalidWeight);
        }
        let exists = match self.registry.get(url) {
            Some(issue) => issue.exists,
            None => false,
        };
        if !exists {
            return Err(Error::NotRegistered);
        }
        let issue_wave_id = match self.issue_to_wave.get(url) {
            Some(id) => *id,
            None => {
                return Err(Error::NotRegistered);
            },
        };
        let wave_active = match self.waves.get(&issue_wave_id) {
            Some(w) => wave::is_within_voting_period(w, &self.wave_config, self.block_number),
            None => false,
        };
        if !wave_active {
            return Err(Error::WaveNotActive);
        }
        if self.votes_by.get(caller, url).is_some() {
            return Err(Error::AlreadyVoted);
        }
        let reputation_balance = self.reputation_manager.balance_of(caller);
        let reputation_weight = self.reputation_manager.reputation_to_weight(reputation_balance);
        let mut effective_weight = math::calculate_weighted_score(
            weight,
            reputation_weight,
            self.wave_config.points_divisor,
        );
        effective_weight = math::min(effective_weight, self.wave_config.max_weight_per_vote);

        self.votes_by.insert(caller, url, effective_weight);

        let updated_issue = match self.registry.get(url) {
            Some(issue) => {
                let mut i2 = issue.duplicate();
                i2.current_weight = i2.current_weight + effective_weight;
                i2.assigned_points = math::calculate_points(
                    i2.current_weight,
                    self.wave_config.points_divisor,
                );
                i2
            },
            None => {
                return Err(Error::NotRegistered);
            },
        };
        self.registry.insert(String::from_str(url), updated_issue);

        let updated_wave = match self.waves.get(&issue_wave_id) {
            Some(w) => {
                let mut w2 = w.duplicate();
                w2.total_weight_cast = w2.total_weight_cast + effective_weight;
                w2
            },
            None => {
                return Err(Error::WaveNotActive);
            },
        };
        self.waves.insert(issue_wave_id, updated_wave);

        let rep_amount = weight / 10 + 1;
        let ghost rm_mid = self.reputation_manager;
        match self.reputation_manager.mint_reputation(caller, rep_amount) {
            Ok(()) => {},
            Err(e) => {
                proof {
                    assert(self.issues() =~= old(self).issues().insert(
                        url@,
                        IssueView {
                            current_weight: (old(self).issues()[url@].current_weight + effective_weight) as u64,
                            assigned_points: ((old(self).issues()[url@].current_weight + effective_weight) as u64) / old(self).wave_config.points_divisor,
                            ..old(self).issues()[url@]
                        },
                    ));
                }
                return Err(e);
            },
        }
        self.total_votes = self.total_votes + 1;

        let ghost events0 = self.events@;
        let ghost rm_events = self.reputation_manager.events@;
        drain_events_reversed(&mut self.events, &mut self.reputation_manager.events);
        let ghost events1 = self.events@;
        self.events.push(
            Event::Voted {
                voter: String::from_str(caller),
                url: String::from_str(url),
                weight: effective_weight,
            },
        );
        self.events.push(Event::ReputationEarned { voter: String::from_str(caller), amount: rep_amount });
        proof {
            assert(self.events@ =~= events1 + seq![self.events@[events1.len() as int], self.events@.last()]);
            crate::types::lemma_log_view_add(events1, seq![self.events@[events1.len() as int], self.events@.last()]);
            crate::types::lemma_log_view_add(events0, rm_events.reverse());
            crate::types::lemma_log_view_reverse(rm_events);
            assert(log_view(seq![self.events@[events1.len() as int], self.events@.last()]) =~= seq![
                EventView::Voted { voter: caller@, url: url@, weight: effective_weight },
                EventView::ReputationEarned { voter: caller@, amount: rep_amount },
            ]);
            assert(self.issues() =~= old(self).issues().insert(
                url@,
                IssueView {
                    current_weight: (old(self).issues()[url@].current_weight + effective_weight) as u64,
                    assigned_points: ((old(self).issues()[url@].current_weight + effective_weight) as u64) / old(self).wave_config.points_divisor,
                    ..old(self).issues()[url@]
                },
            ));
        }
        Ok(())
    }

    /// The first reason fast-tracking `url` would be refused before anything changes, if any.
    pub open spec fn fast_track_refusal(&self, caller: Seq<char>, url: Seq<char>, reason: Seq<char>) -> Option<
        Error,
    > {
        if !self.is_owner(caller) {
            Some(Error::NotOwner)
        } else if !self.is_live(url) {
            Some(Error::NotRegistered)
        } else {
            self.emergency_scoping.propose_refusal(url, reason, self.owner@, caller)
        }
    }

    /// Whether the blocks skipped by a fast-track cover the emergency module's timelock.
    pub open spec fn fast_track_clears_timelock(&self) -> bool {
        self.wave_config.emergency_timelock + 1 >= self.emergency_scoping.timelock_blocks
    }

    /// The weight a fast-track adds to an issue: twice the maximum vote weight.
    pub open spec fn fast_track_boost(&self) -> int {
        self.wave_config.max_weight_per_vote * 2
    }

    /// Fast-tracking `url` overflows nothing.
    pub open spec fn can_fast_track(&self, caller: Seq<char>, url: Seq<char>, reason: Seq<char>) -> bool {
        self.fast_track_refusal(caller, url, reason) is None ==> {
            &&& self.block_number + self.wave_config.emergency_timelock + 1 <= u64::MAX
            &&& self.block_number + self.emergency_scoping.timelock_blocks <= u64::MAX
            &&& self.fast_track_clears_timelock() ==> self.issues()[url].current_weight
                + self.fast_track_boost() <= u64::MAX
        }
    }

    /// Proposes and, once the timelock has been skipped past, executes an emergency
    /// fast-track of `url`: the issue is flagged as an emergency and gains twice
    /// the maximum vote weight. Only the owner may.
    pub fn fast_track_issue(&mut self, caller: &str, url: &str, reason: &str) -> (r: Result<(), Error>)
        requires
            old(self).wf(),
            old(self).can_fast_track(caller@, url@, reason@),
        ensures
            final(self).wf(),
            old(self).fast_track_refusal(caller@, url@, reason@) matches Some(e) ==> r == Err::<(), Error>(e)
                && *final(self) == *old(self),
            old(self).fast_track_refusal(caller@, url@, reason@) is None ==> {
                let es0 = old(self).emergency_scoping;
                let es1 = final(self).emergency_scoping;
                let block = (old(self).block_number + old(self).wave_config.emergency_timelock + 1) as u64;
                let met = old(self).fast_track_clears_timelock();
                &&& final(self).block_number == block
                &&& es1.wave_scoping == es0.wave_scoping
                &&& es1.timelock_blocks == es0.timelock_blocks
                &&& es1.proposal_map() == es0.proposal_map().insert(
                    url@,
                    ProposalView {
                        issue_url: url@,
                        proposer: caller@,
                        proposed_at: old(self).block_number,
                        executed: met,
                        reason: reason@,
                    },
                )
                &&& texts(es1.proposal_list@) == texts(es0.proposal_list@).push(url@)
                &&& *final(self) == (WaveScoping {
                    registry: final(self).registry,
                    emergency_scoping: es1,
                    block_number: block,
                    events: final(self).events,
                    ..*old(self)
                })
                &&& !met ==> {
                    &&& r == Err::<(), Error>(Error::TimelockNotMet)
                    &&& log_view(es1.events@) == log_view(es0.events@).push(
                        EventView::FastTrackProposed { url: url@, proposer: caller@, reason: reason@ },
                    )
                    &&& final(self).registry == old(self).registry
                    &&& final(self).events == old(self).events
                }
                &&& met ==> {
                    &&& r == Ok::<(), Error>(())
                    &&& es1.events@ == Seq::<Event>::empty()
                    &&& final(self).issues() == old(self).issues().insert(
                        url@,
                        issue_after_fast_track(old(self).issues()[url@], old(self).fast_track_boost()),
                    )
                    &&& log_view(final(self).events@) == log_view(old(self).events@) + (log_view(
                        es0.events@,
                    ) + seq![
                        EventView::FastTrackProposed { url: url@, proposer: caller@, reason: reason@ },
                        EventView::FastTrackExecuted { url: url@, timestamp: block },
                    ]).reverse() + seq![EventView::IssueFastTracked { url: url@, maintainer: caller@ }]
                }
            },
    {
        if !same_text(caller, self.owner.as_str()) {
            return Err(Error::NotOwner);
        }
        let exists = match self.registry.get(url) {
            Some(issue) => issue.exists,
            None => false,
        };
        if !exists {
            return Err(Error::NotRegistered);
        }
        match self.emergency_scoping.propose_fast_track(
            url,
            reason,
            self.owner.as_str(),
            caller,
            self.block_number,
        ) {
            Ok(()) => {},
            Err(e) => {
                return Err(e);
            },
        }
        proof {
            assert(self.emergency_scoping.proposal_map().contains_key(url@));
            assert(self.emergency_scoping.proposals@.contains_key(url@));
            assert(self.emergency_scoping.proposals@[url@]@ == self.emergency_scoping.proposal_map()[url@]);
        }
        self.block_number = self.block_number + self.wave_config.emergency_timelock + 1;
        match self.emergency_scoping.execute_fast_track(
            url,
            self.owner.as_str(),
            caller,
            self.block_number,
        ) {
            Ok(()) => {},
            Err(e) => {
                return Err(e);
            },
        }
        let ghost events0 = self.events@;
        let ghost es_events = self.emergency_scoping.events@;
        drain_events_reversed(&mut self.events, &mut self.emergency_scoping.events);
        let updated = match self.registry.get(url) {
            Some(issue) => {
                let mut i2 = issue.duplicate();
                i2.is_emergency = true;
                i2.current_weight = i2.current_weight + self.wave_config.max_weight_per_vote * 2;
                i2
            },
            None => {
                return Err(Error::NotRegistered);
            },
        };
        self.registry.insert(String::from_str(url), updated);
        let ghost events1 = self.events@;
        self.events.push(
            Event::IssueFastTracked { url: String::from_str(url), maintainer: String::from_str(caller) },
        );
        proof {
            assert(self.events@ == events1.push(self.events@.last()));
            crate::types::lemma_log_view_add(events0, es_events.reverse());
            crate::types::lemma_log_view_reverse(es_events);
            assert(log_view(self.events@) =~= log_view(events1).push(
                EventView::IssueFastTracked { url: url@, maintainer: caller@ },
            ));
            assert(log_view(es_events) =~= log_view(old(self).emergency_scoping.events@) + seq![
                EventView::FastTrackProposed { url: url@, proposer: caller@, reason: reason@ },
                EventView::FastTrackExecuted { url: url@, timestamp: self.block_number },
            ]);
            assert(self.issues() =~= old(self).issues().insert(
                url@,
                IssueView {
                    is_emergency: true,
                    current_weight: (old(self).issues()[url@].current_weight
                        + old(self).fast_track_boost()) as u64,
                    ..old(self).issues()[url@]
                },
            ));
        }
        Ok(())
    }

    /// The first reason adjusting the points of `url` would be refused before anything changes, if any.
    pub open spec fn adjust_refusal(&self, caller: Seq<char>, url: Seq<char>) -> Option<Error> {
        if !self.is_owner(caller) {
            Some(Error::NotOwner)
        } else if !self.is_live(url) {
            Some(Error::NotRegistered)
        } else {
            None
        }
    }

    /// Whether changing the points of `url` now charges the caller a slash: work has
    /// started on the issue and its grace window has passed.
    pub open spec fn adjustment_slashes(&self, url: Seq<char>) -> bool {
        let issue = self.issues()[url];
        issue.assigned_contributor is Some && !(self.block_number <= issue.started_at_block
            + GRACE_BLOCKS)
    }

    /// Adjusting the points of `url` overflows nothing.
    pub open spec fn can_adjust(&self, caller: Seq<char>, url: Seq<char>, new_points: u64) -> bool {
        self.adjust_refusal(caller, url) is None ==> {
            let issue = self.issues()[url];
            &&& issue.assigned_contributor is Some ==> issue.started_at_block + GRACE_BLOCKS <= u64::MAX
            &&& self.adjustment_slashes(url) ==> self.slashing_manager.can_slash(
                caller,
                url,
                issue.assigned_points,
                new_points,
            )
        }
    }

    /// Sets the points of the issue at `url` to `new_points`; only the owner may.
    /// Once work has started and the grace window has passed, the change is
    /// allowed only as a slash of the caller, which must not be refused.
    pub fn adjust_points(&mut self, caller: &str, url: &str, new_points: u64, reason: &str) -> (r: Result<
        (),
        Error,
    >)
        requires
            old(self).wf(),
            old(self).can_adjust(caller@, url@, new_points),
        ensures
            final(self).wf(),
            old(self).adjust_refusal(caller@, url@) matches Some(e) ==> r == Err::<(), Error>(e)
                && *final(self) == *old(self),
            old(self).adjust_refusal(caller@, url@) is None ==> {
                let prev = old(self).issues()[url@].assigned_points;
                let sm0 = old(self).slashing_manager;
                let sm1 = final(self).slashing_manager;
                let adjusted = old(self).issues().insert(
                    url@,
                    issue_after_adjust(old(self).issues()[url@], new_points),
                );
                let adjusted_event = EventView::PointsAdjusted {
                    url: url@,
                    old_points: prev,
                    new_points,
                };
                &&& !old(self).adjustment_slashes(url@) ==> {
                    &&& r == Ok::<(), Error>(())
                    &&& final(self).issues() == adjusted
                    &&& log_view(final(self).events@) == log_view(old(self).events@).push(adjusted_event)
                    &&& *final(self) == (WaveScoping {
                        registry: final(self).registry,
                        events: final(self).events,
                        ..*old(self)
                    })
                }
                &&& old(self).adjustment_slashes(url@) ==> {
                    &&& sm0.slash_refusal(caller@, url@, prev, new_points) matches Some(e) ==> r == Err::<
                        (),
                        Error,
                    >(e) && *final(self) == *old(self)
                    &&& sm0.slash_refusal(caller@, url@, prev, new_points) is None ==> {
                        let penalty = spec_penalty(prev, new_points, sm0.max_penalty_bps) as u64;
                        &&& r == Ok::<(), Error>(())
                        &&& final(self).issues() == adjusted
                        &&& sm1.wave_scoping == sm0.wave_scoping
                        &&& sm1.max_penalty_bps == sm0.max_penalty_bps
                        &&& sm1.burn_rate_bps == sm0.burn_rate_bps
                        &&& sm1.records() == sm0.records().insert(
                            (caller@, url@),
                            SlashRecordView {
                                maintainer: caller@,
                                issue_url: url@,
                                penalty,
                                timestamp: 0,
                                applied: true,
                            },
                        )
                        &&& sm1.total_slashed@ == sm0.total_slashed@.insert(
                            caller@,
                            (sm0.total_of(caller@) + penalty) as u64,
                        )
                        &&& sm1.events@ == Seq::<Event>::empty()
                        &&& log_view(final(self).events@) == log_view(old(self).events@) + (log_view(
                            sm0.events@,
                        ) + seq![
                            EventView::MaintainerSlashed {
                                maintainer: caller@,
                                url: url@,
                                penalty,
                                reason: reason@,
                            },
                        ]).reverse() + seq![adjusted_event]
                        &&& *final(self) == (WaveScoping {
                            registry: final(self).registry,
                            slashing_manager: sm1,
                            events: final(self).events,
                            ..*old(self)
                        })
                    }
                }
            },
    {
        if !same_text(caller, self.owner.as_str()) {
            return Err(Error::NotOwner);
        }
        let (previous_points, has_contributor, started_at) = match self.registry.get(url) {
            Some(issue) => {
                if !issue.exists {
                    return Err(Error::NotRegistered);
                }
                (issue.assigned_points, issue.assigned_contributor.is_some(), issue.started_at_block)
            },
            None => {
                return Err(Error::NotRegistered);
            },
        };
        let within_grace = has_contributor && self.block_number <= started_at + GRACE_BLOCKS;
        let ghost events0 = self.events@;
        let ghost mut sm_events = self.slashing_manager.events@;
        if has_contributor && !within_grace {
            match self.slashing_manager.slash(caller, url, previous_points, new_points, reason) {
                Ok(_) => {},
                Err(e) => {
                    return Err(e);
                },
            }
            proof {
                sm_events = self.slashing_manager.events@;
            }
            drain_events_reversed(&mut self.events, &mut self.slashing_manager.events);
        }
        let updated = match self.registry.get(url) {
            Some(issue) => {
                let mut i2 = issue.duplicate();
                i2.assigned_points = new_points;
                i2
            },
            None => {
                return Err(Error::NotRegistered);
            },
        };
        self.registry.insert(String::from_str(url), updated);
        let ghost events1 = self.events@;
        self.events.push(
            Event::PointsAdjusted { url: String::from_str(url), old_points: previous_points, new_points },
        );
        proof {
            assert(self.events@ == events1.push(self.events@.last()));
            assert(log_view(self.events@) =~= log_view(events1).push(
                EventView::PointsAdjusted { url: url@, old_points: previous_points, new_points },
            ));
            if has_contributor && !within_grace {
                crate::types::lemma_log_view_add(events0, sm_events.reverse());
                crate::types::lemma_log_view_reverse(sm_events);
            }
            assert(self.issues() =~= old(self).issues().insert(
                url@,
                IssueView { assigned_points: new_points, ..old(self).issues()[url@] },
            ));
        }
        Ok(())
    }
}

/// A voter casts at most one vote per issue: once a vote has been recorded,
/// every further vote by the same voter on the same issue is refused.
pub proof fn law_one_vote_per_voter_and_issue(
    h0: WaveScoping,
    h1: WaveScoping,
    voter: Seq<char>,
    url: Seq<char>,
    first_weight: u64,
    second_weight: u64,
)
    requires
        h0.vote_refusal(voter, url, first_weight) is None,
        h1.votes() == h0.votes().insert((voter, url), h0.effective_weight(voter, first_weight) as u64),
    ensures
        h1.vote_refusal(voter, url, second_weight) is Some,
{
    assert(h1.votes().contains_key((voter, url)));
}

/// An accepted vote counts for at least its own weight and at most the maximum
/// weight per vote, however much reputation the voter holds.
pub proof fn law_vote_weight_bounds(h: WaveScoping, voter: Seq<char>, weight: u64)
    requires
        1 <= weight <= h.wave_config.max_weight_per_vote,
        h.reputation_manager.decay_is_safe(voter),
        h.wave_config.points_divisor > 0,
    ensures
        weight <= h.effective_weight(voter, weight) <= h.wave_config.max_weight_per_vote,
{
    crate::reputation_manager::lemma_decay_times_bounds_if_safe(&h.reputation_manager, voter);
    let bonus = h.reputation_manager.decayed_balance(voter) / h.wave_config.points_divisor as int;
    assert(bonus >= 0) by (nonlinear_arith)
        requires
            h.wave_config.points_divisor > 0,
            h.reputation_manager.decayed_balance(voter) >= 0,
            bonus == h.reputation_manager.decayed_balance(voter) / h.wave_config.points_divisor as int,
    ;
}

/// Once a wave is finalized, no issue registered in it takes further votes.
pub proof fn law_finalized_wave_takes_no_votes(
    h0: WaveScoping,
    h1: WaveScoping,
    caller: Seq<char>,
    wave_id: u64,
    voter: Seq<char>,
    url: Seq<char>,
    weight: u64,
)
    requires
        h0.finalize_refusal(caller, wave_id) is None,
        h1.waves@ == h0.waves@.insert(wave_id, WaveData { is_finalized: true, ..h0.waves@[wave_id] }),
        h1.issue_waves().contains_key(url),
        h1.issue_waves()[url] == wave_id,
    ensures
        h1.vote_refusal(voter, url, weight) is Some,
{
    wave::lemma_no_votes_once_finalized(h1.waves@[wave_id], h1.block_number);
}

/// Once the block number passes a wave's last block, no issue registered in it
/// takes further votes.
pub proof fn law_ended_wave_takes_no_votes(h: WaveScoping, voter: Seq<char>, url: Seq<char>, weight: u64)
    requires
        h.issue_waves().contains_key(url),
        h.waves@.contains_key(h.issue_waves()[url]),
        h.block_number > h.waves@[h.issue_waves()[url]].end_block,
    ensures
        h.vote_refusal(voter, url, weight) is Some,
{
    wave::lemma_no_votes_after_end(h.waves@[h.issue_waves()[url]], h.block_number);
}

/// Work on an issue is started at most once: once a contributor is assigned,
/// every further attempt to start work on it is refused.
pub proof fn law_work_starts_once(h0: WaveScoping, h1: WaveScoping, first: Seq<char>, url: Seq<char>)
    requires
        h0.issues().contains_key(url),
        h0.issues()[url].assigned_contributor is None,
        h1.issues() == h0.issues().insert(
            url,
            issue_after_start(h0.issues()[url], first, h0.block_number),
        ),
    ensures
        h1.issues().contains_key(url) && h1.issues()[url].assigned_contributor is Some,
{
}

/// One change that an operation makes to a single issue: a vote counting `eff`
/// (`vote_on_issue`), a fast-track adding `boost` (`fast_track_issue`), a new
/// points value (`adjust_points`) or the start of work (`start_work`).
pub enum IssueUpdate {
    Vote { eff: u64, divisor: u64 },
    FastTrack { boost: int },
    Adjust { points: u64 },
    Start { contributor: Seq<char>, block: u64 },
}

/// The issue after one update.
pub open spec fn apply_update(i: IssueView, u: IssueUpdate) -> IssueView {
    match u {
        IssueUpdate::Vote { eff, divisor } => issue_after_vote(i, eff, divisor),
        IssueUpdate::FastTrack { boost } => issue_after_fast_track(i, boost),
        IssueUpdate::Adjust { points } => issue_after_adjust(i, points),
        IssueUpdate::Start { contributor, block } => issue_after_start(i, contributor, block),
    }
}

/// The issue after a history of updates, applied in order.
pub open spec fn issue_after_updates(i: IssueView, us: Seq<IssueUpdate>) -> IssueView
    decreases us.len(),
{
    if us.len() == 0 {
        i
    } else {
        apply_update(issue_after_updates(i, us.drop_last()), us.last())
    }
}

/// The weight a history adds: the counted weight of each vote and the boost of
/// each fast-track.
pub open spec fn weight_added(us: Seq<IssueUpdate>) -> int
    decreases us.len(),
{
    if us.len() == 0 {
        0
    } else {
        weight_added(us.drop_last()) + match us.last() {
            IssueUpdate::Vote { eff, .. } => eff as int,
            IssueUpdate::FastTrack { boost } => boost,
            _ => 0,
        }
    }
}

/// Whether a history holds a fast-track.
pub open spec fn has_fast_track(us: Seq<IssueUpdate>) -> bool
    decreases us.len(),
{
    us.len() > 0 && (us.last() is FastTrack || has_fast_track(us.drop_last()))
}

/// The contributor of the last start of work in a history, if any.
pub open spec fn last_start(us: Seq<IssueUpdate>) -> Option<Seq<char>>
    decreases us.len(),
{
    if us.len() == 0 {
        None
    } else {
        match us.last() {
            IssueUpdate::Start { contributor, .. } => Some(contributor),
            _ => last_start(us.drop_last()),
        }
    }
}

/// The points of issue `i` after a history: set by the last vote (the weight by
/// then, over the divisor) or the last adjustment, whichever came later.
pub open spec fn points_after(i: IssueView, us: Seq<IssueUpdate>) -> u64
    decreases us.len(),
{
    if us.len() == 0 {
        i.assigned_points
    } else {
        match us.last() {
            IssueUpdate::Vote { divisor, .. } => ((i.current_weight + weight_added(us)) as u64)
                / divisor,
            IssueUpdate::Adjust { points } => points,
            _ => points_after(i, us.drop_last()),
        }
    }
}

/// No fast-track in a history takes weight away.
pub open spec fn boosts_nonnegative(us: Seq<IssueUpdate>) -> bool {
    forall|k: int| 0 <= k < us.len() && #[trigger] us[k] is FastTrack ==> us[k]->boost >= 0
}

proof fn lemma_weight_added_grows(us: Seq<IssueUpdate>)
    requires
        boosts_nonnegative(us),
    ensures
        us.len() > 0 ==> weight_added(us.drop_last()) <= weight_added(us),
        0 <= weight_added(us),
    decreases us.len(),
{
    if us.len() > 0 {
        assert(us.last() == us[us.len() - 1]);
        assert(boosts_nonnegative(us.drop_last())) by {
            assert forall|k: int| 0 <= k < us.drop_last().len() && #[trigger] us.drop_last()[k] is FastTrack
                implies us.drop_last()[k]->boost >= 0 by {
                assert(us.drop_last()[k] == us[k]);
            }
        }
        lemma_weight_added_grows(us.drop_last());
    }
}

/// What an issue holds after any history of updates from issue `i`.
pub proof fn lemma_issue_after_updates(i: IssueView, us: Seq<IssueUpdate>)
    requires
        boosts_nonnegative(us),
        i.current_weight + weight_added(us) <= u64::MAX,
    ensures
        ({
            let j = issue_after_updates(i, us);
            &&& j.github_issue_url == i.github_issue_url
            &&& j.exists == i.exists
            &&& j.current_weight == i.current_weight + weight_added(us)
            &&& j.assigned_points == points_after(i, us)
            &&& j.is_emergency == (i.is_emergency || has_fast_track(us))
            &&& j.assigned_contributor == match last_start(us) {
                Some(c) => Some(c),
                None => i.assigned_contributor,
            }
        }),
    decreases us.len(),
{
    if us.len() > 0 {
        lemma_weight_added_grows(us);
        let rest = us.drop_last();
        assert(boosts_nonnegative(rest)) by {
            assert forall|k: int| 0 <= k < rest.len() && #[trigger] rest[k] is FastTrack
                implies rest[k]->boost >= 0 by {
                assert(rest[k] == us[k]);
            }
        }
        lemma_issue_after_updates(i, rest);
        assert(us.last() == us[us.len() - 1]);
    }
}

/// The history of an issue. Registration starts it at zero weight, zero points,
/// no emergency and no contributor, and `get_issue` refuses every url never
/// registered. Afterwards its weight is what its votes and fast-tracks added,
/// and nothing else; its points are set only by votes and point adjustments,
/// the latest of them deciding; it is an emergency exactly when it was
/// fast-tracked; its contributor is whoever last started work on it; its url
/// never changes and it is never removed.
pub proof fn law_issue_history(url: Seq<char>, us: Seq<IssueUpdate>)
    requires
        boosts_nonnegative(us),
        weight_added(us) <= u64::MAX,
    ensures
        ({
            let j = issue_after_updates(fresh_issue(url), us);
            &&& j.github_issue_url == url
            &&& j.exists
            &&& j.current_weight == weight_added(us)
            &&& j.assigned_points == points_after(fresh_issue(url), us)
            &&& j.is_emergency == has_fast_track(us)
            &&& j.assigned_contributor == last_start(us)
        }),
{
    lemma_issue_after_updates(fresh_issue(url), us);
}

/// A registered issue reads back as freshly registered until something else
/// touches it: `get_issue` right after `register_issue` gives zero weight, zero
/// points, no emergency and no contributor.
pub proof fn law_register_then_read(h0: WaveScoping, h1: WaveScoping, url: Seq<char>)
    requires
        h1.issues() == h0.issues().insert(url, fresh_issue(url)),
    ensures
        h1.is_live(url),
        h1.issues()[url].current_weight == 0,
        h1.issues()[url].assigned_points == 0,
        !h1.issues()[url].is_emergency,
        h1.issues()[url].assigned_contributor is None,
{
}

/// Registration is permanent: an operation that updates one issue keeps every
/// registered issue registered and every other issue as it was.
pub proof fn law_updates_keep_registrations(
    h0: WaveScoping,
    h1: WaveScoping,
    url: Seq<char>,
    updated: IssueView,
    other: Seq<char>,
)
    requires
        h0.is_live(url),
        updated.exists,
        h1.issues() == h0.issues().insert(url, updated),
        h0.is_live(other),
    ensures
        h1.is_live(other),
        other != url ==> h1.issues()[other] == h0.issues()[other],
{
}


/// A vote of `weight` earns the voter `weight / 10 + 1` reputation: right after
/// the vote, the voter's stored balance is the decayed balance before it plus
/// that reward.
pub proof fn law_vote_reward(
    rm0: ReputationManager,
    rm1: ReputationManager,
    voter: Seq<char>,
    weight: u64,
)
    requires
        rm1.balances() == rm0.balances().insert(
            voter,
            (rm0.decayed_balance(voter) + reputation_for_vote(weight)) as u64,
        ),
        rm0.decay_is_safe(voter),
        rm0.decayed_balance(voter) + weight / 10 + 1 <= u64::MAX,
    ensures
        reputation_for_vote(weight) == weight / 10 + 1,
        rm1.balance(voter) == rm0.decayed_balance(voter) + weight / 10 + 1,
{
    crate::reputation_manager::lemma_decay_times_bounds_if_safe(&rm0, voter);
}

/// A vote counts for its weight plus the voter's decayed reputation over the
/// points divisor, but never for more than the maximum weight per vote.
pub proof fn law_effective_weight(h: WaveScoping, voter: Seq<char>, weight: u64)
    requires
        h.wave_config.points_divisor > 0,
    ensures
        ({
            let boosted = weight + h.reputation_manager.decayed_balance(voter)
                / (h.wave_config.points_divisor as int);
            h.effective_weight(voter, weight) == if boosted <= h.wave_config.max_weight_per_vote {
                boosted
            } else {
                h.wave_config.max_weight_per_vote as int
            }
        }),
{
}

/// A vote is accepted exactly when its weight lies between one and the maximum,
/// the issue is live and in a wave that exists and takes votes at the current
/// block, and the voter has not voted on it before.
pub proof fn law_vote_accepts(h: WaveScoping, voter: Seq<char>, url: Seq<char>, weight: u64)
    ensures
        h.vote_refusal(voter, url, weight) is None <==> ({
            &&& 1 <= weight && weight <= h.wave_config.max_weight_per_vote
            &&& h.issues().contains_key(url) && h.issues()[url].exists
            &&& h.issue_waves().contains_key(url)
            &&& h.waves@.contains_key(h.issue_waves()[url])
            &&& h.waves@[h.issue_waves()[url]].is_active
            &&& !h.waves@[h.issue_waves()[url]].is_finalized
            &&& h.waves@[h.issue_waves()[url]].start_block <= h.block_number
            &&& h.block_number <= h.waves@[h.issue_waves()[url]].end_block
            &&& !h.votes().contains_key((voter, url))
        }),
{
}

/// A counted vote adds its weight to the issue and sets the issue's points to
/// the new weight over the divisor; nothing else about the issue changes.
pub proof fn law_vote_on_issue_fields(i: IssueView, eff: u64, divisor: u64)
    requires
        i.current_weight + eff <= u64::MAX,
    ensures
        issue_after_vote(i, eff, divisor).current_weight == i.current_weight + eff,
        issue_after_vote(i, eff, divisor).assigned_points == (i.current_weight + eff) / (divisor as int),
        issue_after_vote(i, eff, divisor).is_emergency == i.is_emergency,
        issue_after_vote(i, eff, divisor).assigned_contributor == i.assigned_contributor,
        issue_after_vote(i, eff, divisor).started_at_block == i.started_at_block,
        issue_after_vote(i, eff, divisor).exists == i.exists,
        issue_after_vote(i, eff, divisor).github_issue_url == i.github_issue_url,
{
}

/// A new wave runs from the block it is created at for exactly its duration:
/// it starts at the current block, ends `duration_blocks` later, is open and
/// current, and takes votes at every block in between, both ends included.
pub proof fn law_new_wave_spans_its_duration(
    h0: WaveScoping,
    h1: WaveScoping,
    id: u64,
    name: Seq<char>,
    duration_blocks: u64,
    block: u64,
)
    requires
        h1.opened_wave(&h0, id, name, duration_blocks),
        h0.block_number + duration_blocks <= u64::MAX,
    ensures
        h1.current_wave_id == id,
        h1.waves@.contains_key(id),
        h1.waves@[id].start_block == h0.block_number,
        h1.waves@[id].end_block == h0.block_number + duration_blocks,
        h1.waves@[id].is_active,
        !h1.waves@[id].is_finalized,
        h1.waves@[id].total_weight_cast == 0,
        h1.waves@[id].issue_count == 0,
        h1.block_number == h0.block_number,
        h0.block_number <= block <= h0.block_number + duration_blocks ==> spec_within_voting_period(
            h1.waves@[id],
            block,
        ),
{
}

/// Points change as a slash only once work has started and more than five
/// blocks have passed since the block at which it started.
pub proof fn law_grace_window(h: WaveScoping, url: Seq<char>)
    requires
        h.issues().contains_key(url),
    ensures
        h.adjustment_slashes(url) <==> (h.issues()[url].assigned_contributor is Some
            && h.block_number > h.issues()[url].started_at_block + 5),
{
}

/// Adjusting points is refused exactly for a caller other than the owner, or an
/// issue that is not live; the adjusted issue keeps everything but its points.
pub proof fn law_adjust_points_accepts(h: WaveScoping, caller: Seq<char>, url: Seq<char>, i: IssueView, new_points: u64)
    ensures
        h.adjust_refusal(caller, url) is None <==> (caller == h.owner@ && h.issues().contains_key(url)
            && h.issues()[url].exists),
        issue_after_adjust(i, new_points) == (IssueView { assigned_points: new_points, ..i }),
{
}

/// Starting work records the worker as the contributor and the current block as
/// the start of work, and changes nothing else about the issue.
pub proof fn law_start_work_fields(i: IssueView, contributor: Seq<char>, block: u64)
    ensures
        issue_after_start(i, contributor, block) == (IssueView {
            assigned_contributor: Some(contributor),
            started_at_block: block,
            ..i
        }),
{
}

/// A fast-track is accepted exactly when the owner asks for a live issue with a
/// reason and the issue has not been proposed before, whoever is working on
/// it; it flags the issue an emergency and adds twice the maximum vote weight.
pub proof fn law_fast_track_accepts(
    h: WaveScoping,
    caller: Seq<char>,
    url: Seq<char>,
    reason: Seq<char>,
    i: IssueView,
)
    ensures
        h.fast_track_refusal(caller, url, reason) is None <==> ({
            &&& caller == h.owner@
            &&& h.issues().contains_key(url) && h.issues()[url].exists
            &&& !h.emergency_scoping.proposal_map().contains_key(url)
            &&& reason.len() > 0
        }),
        h.fast_track_boost() == 2 * h.wave_config.max_weight_per_vote,
        issue_after_fast_track(i, 2 * h.wave_config.max_weight_per_vote) == (IssueView {
            is_emergency: true,
            current_weight: (i.current_weight + 2 * h.wave_config.max_weight_per_vote) as u64,
            ..i
        }),
{
    crate::emergency_scoping::law_propose_accepts(h.emergency_scoping, url, reason, h.owner@, caller);
}

/// Finalizing is refused exactly for a caller other than the owner, or a wave
/// that does not exist, is not active or is already finalized.
pub proof fn law_finalize_accepts(h: WaveScoping, caller: Seq<char>, wave_id: u64)
    ensures
        h.finalize_refusal(caller, wave_id) is None <==> (caller == h.owner@ && h.waves@.contains_key(
            wave_id,
        ) && h.waves@[wave_id].is_active && !h.waves@[wave_id].is_finalized),
{
}


/// Only the owner counts as the owner; an issue is live exactly when it is
/// registered and exists; a fast-track clears the emergency timelock exactly
/// when the blocks it skips, the configured timelock plus one, cover the
/// emergency module's timelock.
pub proof fn law_hub_predicates(h: WaveScoping, caller: Seq<char>, url: Seq<char>)
    ensures
        h.is_owner(caller) <==> caller == h.owner@,
        h.is_live(url) <==> (h.registry@.contains_key(url) && h.registry@[url].exists),
        h.fast_track_clears_timelock() <==> h.block_number + h.wave_config.emergency_timelock + 1
            >= h.block_number + h.emergency_scoping.timelock_blocks,
{
    if h.registry@.contains_key(url) {
        assert(h.issues()[url] == h.registry@[url]@);
    }
}

} // verus!
