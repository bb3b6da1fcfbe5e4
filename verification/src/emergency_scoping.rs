//! Emergency fast-tracking: the owner proposes an issue, and after a timelock
//! the proposal may be executed once.

use vstd::prelude::*;
use vstd::hash_map::StringHashMap;
use vstd::string::StringExecFns;

use crate::errors::Error;
use crate::types::{
    log_view, same_text, Event, EventView, FastTrackProposal, ProposalView,
};

verus! {

broadcast use vstd::hash_map::group_hash_map_axioms;

pub struct EmergencyScoping {
    pub wave_scoping: String,
    pub timelock_blocks: u64,
    pub proposals: StringHashMap<FastTrackProposal>,
    pub proposal_list: Vec<String>,
    pub events: Vec<Event>,
}

/// The texts of a list of strings.
pub open spec fn texts(list: Seq<String>) -> Seq<Seq<char>> {
    list.map_values(|s: String| s@)
}

impl EmergencyScoping {
    /// Every proposal, by issue url.
    pub open spec fn proposal_map(&self) -> Map<Seq<char>, ProposalView> {
        self.proposals@.map_values(|p: FastTrackProposal| p@)
    }

    /// The list of proposed urls names each proposal exactly once.
    pub open spec fn wf(&self) -> bool {
        &&& texts(self.proposal_list@).no_duplicates()
        &&& texts(self.proposal_list@).to_set() == self.proposals@.dom()
    }

    /// The first reason a fast-track proposal would be refused, if any.
    pub open spec fn propose_refusal(
        &self,
        url: Seq<char>,
        reason: Seq<char>,
        owner: Seq<char>,
        caller: Seq<char>,
    ) -> Option<Error> {
        if caller != owner {
            Some(Error::NotAuthorized)
        } else if self.proposals@.contains_key(url) {
            Some(Error::AlreadyProposed)
        } else if reason.len() == 0 {
            Some(Error::EmptyReason)
        } else {
            None
        }
    }

    /// The first reason executing the proposal for `url` would be refused, if any.
    pub open spec fn execute_refusal(
        &self,
        url: Seq<char>,
        owner: Seq<char>,
        caller: Seq<char>,
        block_number: u64,
    ) -> Option<Error> {
        if caller != owner {
            Some(Error::NotAuthorized)
        } else if !self.proposals@.contains_key(url) {
            Some(Error::NotAuthorized)
        } else if self.proposals@[url].executed {
            Some(Error::AlreadyExecuted)
        } else if block_number < self.proposals@[url].proposed_at + self.timelock_blocks {
            Some(Error::TimelockNotMet)
        } else {
            None
        }
    }

    /// Checking the timelock of a pending proposal for `url` cannot overflow.
    pub open spec fn can_check_timelock(&self, url: Seq<char>) -> bool {
        self.proposals@.contains_key(url) && !self.proposals@[url].executed
            ==> self.proposals@[url].proposed_at + self.timelock_blocks <= u64::MAX
    }

    pub fn new(wave_scoping: &str, timelock_blocks: u64) -> (r: Self)
        ensures
            r.wf(),
            r.wave_scoping@ == wave_scoping@,
            r.timelock_blocks == timelock_blocks,
            r.proposal_map() == Map::<Seq<char>, ProposalView>::empty(),
            r.proposal_list@ == Seq::<String>::empty(),
            r.events@ == Seq::<Event>::empty(),
    {
        let r = EmergencyScoping {
            wave_scoping: String::from_str(wave_scoping),
            timelock_blocks,
            proposals: StringHashMap::new(),
            proposal_list: Vec::new(),
            events: Vec::new(),
        };
        proof {
            assert(texts(r.proposal_list@) =~= Seq::<Seq<char>>::empty());
            assert(texts(r.proposal_list@).to_set() =~= r.proposals@.dom());
            assert(r.proposal_map() =~= Map::<Seq<char>, ProposalView>::empty());
        }
        r
    }

    /// Records a proposal, made by the owner at `block_number`, to fast-track `url`.
    pub fn propose_fast_track(
        &mut self,
        url: &str,
        reason: &str,
        owner: &str,
        caller: &str,
        block_number: u64,
    ) -> (r: Result<(), Error>)
        requires
            old(self).wf(),
        ensures
            final(self).wf(),
            final(self).wave_scoping == old(self).wave_scoping,
            final(self).timelock_blocks == old(self).timelock_blocks,
            old(self).propose_refusal(url@, reason@, owner@, caller@) matches Some(e) ==> {
                &&& r == Err::<(), Error>(e)
                &&& *final(self) == *old(self)
            },
            old(self).propose_refusal(url@, reason@, owner@, caller@) is None ==> {
                &&& r == Ok::<(), Error>(())
                &&& final(self).proposal_map() == old(self).proposal_map().insert(
                    url@,
                    ProposalView {
                        issue_url: url@,
                        proposer: caller@,
                        proposed_at: block_number,
                        executed: false,
                        reason: reason@,
                    },
                )
                &&& texts(final(self).proposal_list@) == texts(old(self).proposal_list@).push(url@)
                &&& log_view(final(self).events@) == log_view(old(self).events@).push(
                    EventView::FastTrackProposed { url: url@, proposer: caller@, reason: reason@ },
                )
            },
    {
        if !same_text(caller, owner) {
            return Err(Error::NotAuthorized);
        }
        if self.proposals.contains_key(url) {
            return Err(Error::AlreadyProposed);
        }
        if reason.is_empty() {
            return Err(Error::EmptyReason);
        }
        let proposal = FastTrackProposal {
            issue_url: String::from_str(url),
            proposer: String::from_str(caller),
            proposed_at: block_number,
            executed: false,
            reason: String::from_str(reason),
        };
        self.proposals.insert(String::from_str(url), proposal);
        let ghost list0 = self.proposal_list@;
        self.proposal_list.push(String::from_str(url));
        let ghost events0 = self.events@;
        self.events.push(
            Event::FastTrackProposed {
                url: String::from_str(url),
                proposer: String::from_str(caller),
                reason: String::from_str(reason),
            },
        );
        proof {
            assert(self.events@ == events0.push(self.events@.last()));
            assert(log_view(self.events@) =~= log_view(events0).push(
                EventView::FastTrackProposed { url: url@, proposer: caller@, reason: reason@ },
            ));
            assert(self.proposal_list@ == list0.push(self.proposal_list@.last()));
            assert(texts(self.proposal_list@) =~= texts(list0).push(url@));
            assert(!texts(list0).contains(url@)) by {
                if texts(list0).contains(url@) {
                    assert(texts(list0).to_set().contains(url@));
                }
            }
            assert(texts(self.proposal_list@).to_set() =~= self.proposals@.dom()) by {
                Seq::lemma_to_set_insert_commutes(texts(list0), url@);
                assert(texts(list0).push(url@) =~= texts(list0) + seq![url@]);
            }
            assert(self.proposal_map() =~= old(self).proposal_map().insert(
                url@,
                ProposalView {
                    issue_url: url@,
                    proposer: caller@,
                    proposed_at: block_number,
                    executed: false,
                    reason: reason@,
                },
            ));
        }
        Ok(())
    }

    /// Marks the proposal for `url` executed once its timelock has passed.
    pub fn execute_fast_track(
        &mut self,
        url: &str,
        owner: &str,
        caller: &str,
        block_number: u64,
    ) -> (r: Result<(), Error>)
        requires
            old(self).wf(),
            caller@ == owner@ ==> old(self).can_check_timelock(url@),
        ensures
            final(self).wf(),
            final(self).wave_scoping == old(self).wave_scoping,
            final(self).timelock_blocks == old(self).timelock_blocks,
            final(self).proposal_list == old(self).proposal_list,
            old(self).execute_refusal(url@, owner@, caller@, block_number) matches Some(e) ==> {
                &&& r == Err::<(), Error>(e)
                &&& *final(self) == *old(self)
            },
            old(self).execute_refusal(url@, owner@, caller@, block_number) is None ==> {
                &&& r == Ok::<(), Error>(())
                &&& final(self).proposal_map() == old(self).proposal_map().insert(
                    url@,
                    ProposalView { executed: true, ..old(self).proposal_map()[url@] },
                )
                &&& log_view(final(self).events@) == log_view(old(self).events@).push(
                    EventView::FastTrackExecuted { url: url@, timestamp: block_number },
                )
            },
    {
        if !same_text(caller, owner) {
            return Err(Error::NotAuthorized);
        }
        let updated = match self.proposals.get(url) {
            None => {
                return Err(Error::NotAuthorized);
            },
            Some(prop) => {
                if prop.executed {
                    return Err(Error::AlreadyExecuted);
                }
                if block_number < prop.proposed_at + self.timelock_blocks {
                    return Err(Error::TimelockNotMet);
                }
                let mut p = prop.duplicate();
                p.executed = true;
                p
            },
        };
        self.proposals.insert(String::from_str(url), updated);
        let ghost events0 = self.events@;
        self.events.push(
            Event::FastTrackExecuted { url: String::from_str(url), timestamp: block_number },
        );
        proof {
            assert(self.events@ == events0.push(self.events@.last()));
            assert(log_view(self.events@) =~= log_view(events0).push(
                EventView::FastTrackExecuted { url: url@, timestamp: block_number },
            ));
            assert(self.proposals@.dom() =~= old(self).proposals@.dom());
            assert(self.proposal_map() =~= old(self).proposal_map().insert(
                url@,
                ProposalView { executed: true, ..old(self).proposal_map()[url@] },
            ));
        }
        Ok(())
    }

    pub fn get_proposal(&self, url: &str) -> (r: Option<&FastTrackProposal>)
        ensures
            match r {
                Some(p) => self.proposal_map().contains_key(url@) && p@ == self.proposal_map()[url@],
                None => !self.proposal_map().contains_key(url@),
            },
    {
        self.proposals.get(url)
    }

    /// How many proposals have been made: one per proposed url.
    pub fn proposal_count(&self) -> (r: usize)
        requires
            self.wf(),
        ensures
            r == self.proposal_map().len(),
    {
        proof {
            texts(self.proposal_list@).unique_seq_to_set();
            assert(self.proposal_map().dom() =~= self.proposals@.dom());
        }
        self.proposal_list.len()
    }

    /// Whether the proposal for `url` exists and has been executed.
    pub fn is_fast_tracked(&self, url: &str) -> (r: bool)
        ensures
            r == (self.proposal_map().contains_key(url@) && self.proposal_map()[url@].executed),
    {
        match self.proposals.get(url) {
            Some(p) => p.executed,
            None => false,
        }
    }
}

/// A proposal is executed at most once: after it has been executed, every
/// further attempt to execute it is refused, whoever calls and whenever.
pub proof fn law_proposal_executes_once(
    e0: EmergencyScoping,
    e1: EmergencyScoping,
    url: Seq<char>,
    owner: Seq<char>,
    caller: Seq<char>,
    first_block: u64,
    later_owner: Seq<char>,
    later_caller: Seq<char>,
    later_block: u64,
)
    requires
        e0.execute_refusal(url, owner, caller, first_block) is None,
        e1.proposal_map() == e0.proposal_map().insert(
            url,
            ProposalView { executed: true, ..e0.proposal_map()[url] },
        ),
    ensures
        e1.execute_refusal(url, later_owner, later_caller, later_block) is Some,
{
    assert(e1.proposal_map().contains_key(url));
    assert(e1.proposals@.contains_key(url));
    assert(e1.proposals@[url]@ == e1.proposal_map()[url]);
}

/// No proposal executes before its timelock has passed.
pub proof fn law_timelock_holds(
    e: EmergencyScoping,
    url: Seq<char>,
    owner: Seq<char>,
    caller: Seq<char>,
    block_number: u64,
)
    requires
        e.proposal_map().contains_key(url),
        block_number < e.proposal_map()[url].proposed_at + e.timelock_blocks,
    ensures
        e.execute_refusal(url, owner, caller, block_number) is Some,
{
    assert(e.proposals@[url]@ == e.proposal_map()[url]);
}

/// A url is proposed at most once: after a proposal is recorded, every further
/// proposal for the same url is refused.
pub proof fn law_one_proposal_per_url(
    e0: EmergencyScoping,
    e1: EmergencyScoping,
    url: Seq<char>,
    first: ProposalView,
    reason: Seq<char>,
    owner: Seq<char>,
    caller: Seq<char>,
)
    requires
        e1.proposal_map() == e0.proposal_map().insert(url, first),
    ensures
        e1.propose_refusal(url, reason, owner, caller) is Some,
{
    assert(e1.proposal_map().contains_key(url));
}


/// A proposal is accepted exactly when the owner makes it, for a url not yet
/// proposed, with a reason.
pub proof fn law_propose_accepts(
    e: EmergencyScoping,
    url: Seq<char>,
    reason: Seq<char>,
    owner: Seq<char>,
    caller: Seq<char>,
)
    ensures
        e.propose_refusal(url, reason, owner, caller) is None <==> (caller == owner
            && !e.proposal_map().contains_key(url) && reason.len() > 0),
{
    assert(e.proposal_map().dom() =~= e.proposals@.dom());
}

/// A proposal is executed exactly when the owner asks, it exists, it has not
/// been executed, and its timelock has passed: the block is at least the
/// proposal block plus the timelock.
pub proof fn law_execute_accepts(
    e: EmergencyScoping,
    url: Seq<char>,
    owner: Seq<char>,
    caller: Seq<char>,
    block_number: u64,
)
    ensures
        e.execute_refusal(url, owner, caller, block_number) is None <==> (caller == owner
            && e.proposal_map().contains_key(url) && !e.proposal_map()[url].executed
            && block_number >= e.proposal_map()[url].proposed_at + e.timelock_blocks),
{
    assert(e.proposal_map().dom() =~= e.proposals@.dom());
    if e.proposals@.contains_key(url) {
        assert(e.proposal_map()[url] == e.proposals@[url]@);
    }
}

} // verus!
