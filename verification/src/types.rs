//! Records kept by the hub and its managers, and the events they emit.

use vstd::prelude::*;
use vstd::string::StringExecFns;

verus! {

/// The text held by an optional string.
pub open spec fn opt_text(o: Option<String>) -> Option<Seq<char>> {
    match o {
        Some(s) => Some(s@),
        None => None,
    }
}

/// Whether two texts are the same.
pub fn same_text(a: &str, b: &str) -> (r: bool)
    ensures
        r == (a@ == b@),
{
    let x = String::from_str(a);
    let y = String::from_str(b);
    x == y
}

/// A GitHub issue registered for scoping.
#[derive(Debug, Clone)]
pub struct Issue {
    pub github_issue_url: String,
    pub current_weight: u64,
    pub assigned_points: u64,
    pub exists: bool,
    pub is_emergency: bool,
    pub assigned_contributor: Option<String>,
    pub started_at_block: u64,
}

/// An issue with its text fields seen as character sequences.
pub struct IssueView {
    pub github_issue_url: Seq<char>,
    pub current_weight: u64,
    pub assigned_points: u64,
    pub exists: bool,
    pub is_emergency: bool,
    pub assigned_contributor: Option<Seq<char>>,
    pub started_at_block: u64,
}

impl View for Issue {
    type V = IssueView;

    open spec fn view(&self) -> IssueView {
        IssueView {
            github_issue_url: self.github_issue_url@,
            current_weight: self.current_weight,
            assigned_points: self.assigned_points,
            exists: self.exists,
            is_emergency: self.is_emergency,
            assigned_contributor: opt_text(self.assigned_contributor),
            started_at_block: self.started_at_block,
        }
    }
}

/// A freshly registered issue: no weight, no points, no contributor.
pub open spec fn fresh_issue(url: Seq<char>) -> IssueView {
    IssueView {
        github_issue_url: url,
        current_weight: 0,
        assigned_points: 0,
        exists: true,
        is_emergency: false,
        assigned_contributor: None,
        started_at_block: 0,
    }
}

impl Issue {
    pub fn new(url: &str) -> (r: Self)
        ensures
            r@ == fresh_issue(url@),
    {
        Issue {
            github_issue_url: String::from_str(url),
            current_weight: 0,
            assigned_points: 0,
            exists: true,
            is_emergency: false,
            assigned_contributor: None,
            started_at_block: 0,
        }
    }

    /// A field-by-field copy of this issue.
    pub fn duplicate(&self) -> (r: Self)
        ensures
            r == *self,
    {
        let contributor = match &self.assigned_contributor {
            Some(c) => Some(c.clone()),
            None => None,
        };
        Issue {
            github_issue_url: self.github_issue_url.clone(),
            current_weight: self.current_weight,
            assigned_points: self.assigned_points,
            exists: self.exists,
            is_emergency: self.is_emergency,
            assigned_contributor: contributor,
            started_at_block: self.started_at_block,
        }
    }
}

/// A voting round.
#[derive(Debug, Clone)]
pub struct WaveData {
    pub id: u64,
    pub name: String,
    pub start_block: u64,
    pub end_block: u64,
    pub is_active: bool,
    pub is_finalized: bool,
    pub total_weight_cast: u64,
    pub issue_count: u64,
}

/// A wave with its name seen as a character sequence.
pub struct WaveView {
    pub id: u64,
    pub name: Seq<char>,
    pub start_block: u64,
    pub end_block: u64,
    pub is_active: bool,
    pub is_finalized: bool,
    pub total_weight_cast: u64,
    pub issue_count: u64,
}

impl View for WaveData {
    type V = WaveView;

    open spec fn view(&self) -> WaveView {
        WaveView {
            id: self.id,
            name: self.name@,
            start_block: self.start_block,
            end_block: self.end_block,
            is_active: self.is_active,
            is_finalized: self.is_finalized,
            total_weight_cast: self.total_weight_cast,
            issue_count: self.issue_count,
        }
    }
}

impl WaveData {
    /// A field-by-field copy of this wave.
    pub fn duplicate(&self) -> (r: Self)
        ensures
            r == *self,
    {
        WaveData {
            id: self.id,
            name: self.name.clone(),
            start_block: self.start_block,
            end_block: self.end_block,
            is_active: self.is_active,
            is_finalized: self.is_finalized,
            total_weight_cast: self.total_weight_cast,
            issue_count: self.issue_count,
        }
    }
}

/// The parameters the hub was created with.
#[derive(Debug, Clone, Copy)]
pub struct WaveConfig {
    pub voting_period_blocks: u64,
    pub emergency_timelock: u64,
    pub max_weight_per_vote: u64,
    pub points_divisor: u64,
}

/// A request to fast-track an issue past the vote.
#[derive(Debug, Clone)]
pub struct FastTrackProposal {
    pub issue_url: String,
    pub proposer: String,
    pub proposed_at: u64,
    pub executed: bool,
    pub reason: String,
}

/// A proposal with its text fields seen as character sequences.
pub struct ProposalView {
    pub issue_url: Seq<char>,
    pub proposer: Seq<char>,
    pub proposed_at: u64,
    pub executed: bool,
    pub reason: Seq<char>,
}

impl View for FastTrackProposal {
    type V = ProposalView;

    open spec fn view(&self) -> ProposalView {
        ProposalView {
            issue_url: self.issue_url@,
            proposer: self.proposer@,
            proposed_at: self.proposed_at,
            executed: self.executed,
            reason: self.reason@,
        }
    }
}

impl FastTrackProposal {
    /// A field-by-field copy of this proposal.
    pub fn duplicate(&self) -> (r: Self)
        ensures
            r == *self,
    {
        FastTrackProposal {
            issue_url: self.issue_url.clone(),
            proposer: self.proposer.clone(),
            proposed_at: self.proposed_at,
            executed: self.executed,
            reason: self.reason.clone(),
        }
    }
}

/// The record of a penalty charged to a maintainer for one issue.
#[derive(Debug, Clone)]
pub struct SlashRecord {
    pub maintainer: String,
    pub issue_url: String,
    pub penalty: u64,
    pub timestamp: u64,
    pub applied: bool,
}

/// A slash record with its text fields seen as character sequences.
pub struct SlashRecordView {
    pub maintainer: Seq<char>,
    pub issue_url: Seq<char>,
    pub penalty: u64,
    pub timestamp: u64,
    pub applied: bool,
}

impl View for SlashRecord {
    type V = SlashRecordView;

    open spec fn view(&self) -> SlashRecordView {
        SlashRecordView {
            maintainer: self.maintainer@,
            issue_url: self.issue_url@,
            penalty: self.penalty,
            timestamp: self.timestamp,
            applied: self.applied,
        }
    }
}

/// What happened, in the order it happened.
#[derive(Debug)]
pub enum Event {
    IssueRegistered { url: String, wave_id: u64 },
    Voted { voter: String, url: String, weight: u64 },
    IssueFastTracked { url: String, maintainer: String },
    ContributionStarted { url: String, contributor: String },
    ReputationEarned { voter: String, amount: u64 },
    SlashApplied { maintainer: String, penalty: u64 },
    WaveCreated { id: u64, name: String, end_block: u64 },
    WaveFinalized { id: u64 },
    PointsAdjusted { url: String, old_points: u64, new_points: u64 },
    ReputationMinted { user: String, amount: u64 },
    ReputationBurned { user: String, amount: u64 },
    ReputationDecayed { user: String, new_balance: u64 },
    EpochAdvanced { epoch: u64 },
    FastTrackProposed { url: String, proposer: String, reason: String },
    FastTrackExecuted { url: String, timestamp: u64 },
    MaintainerSlashed { maintainer: String, url: String, penalty: u64, reason: String },
    SlashSettled { maintainer: String, amount: u64 },
    MaxPenaltyUpdated { old_max: u64, new_max: u64 },
}

/// An event with its text fields seen as character sequences.
pub enum EventView {
    IssueRegistered { url: Seq<char>, wave_id: u64 },
    Voted { voter: Seq<char>, url: Seq<char>, weight: u64 },
    IssueFastTracked { url: Seq<char>, maintainer: Seq<char> },
    ContributionStarted { url: Seq<char>, contributor: Seq<char> },
    ReputationEarned { voter: Seq<char>, amount: u64 },
    SlashApplied { maintainer: Seq<char>, penalty: u64 },
    WaveCreated { id: u64, name: Seq<char>, end_block: u64 },
    WaveFinalized { id: u64 },
    PointsAdjusted { url: Seq<char>, old_points: u64, new_points: u64 },
    ReputationMinted { user: Seq<char>, amount: u64 },
    ReputationBurned { user: Seq<char>, amount: u64 },
    ReputationDecayed { user: Seq<char>, new_balance: u64 },
    EpochAdvanced { epoch: u64 },
    FastTrackProposed { url: Seq<char>, proposer: Seq<char>, reason: Seq<char> },
    FastTrackExecuted { url: Seq<char>, timestamp: u64 },
    MaintainerSlashed { maintainer: Seq<char>, url: Seq<char>, penalty: u64, reason: Seq<char> },
    SlashSettled { maintainer: Seq<char>, amount: u64 },
    MaxPenaltyUpdated { old_max: u64, new_max: u64 },
}

impl View for Event {
    type V = EventView;

    open spec fn view(&self) -> EventView {
        match self {
            Event::IssueRegistered { url, wave_id } => EventView::IssueRegistered {
                url: url@,
                wave_id: *wave_id,
            },
            Event::Voted { voter, url, weight } => EventView::Voted {
                voter: voter@,
                url: url@,
                weight: *weight,
            },
            Event::IssueFastTracked { url, maintainer } => EventView::IssueFastTracked {
                url: url@,
                maintainer: maintainer@,
            },
            Event::ContributionStarted { url, contributor } => EventView::ContributionStarted {
                url: url@,
                contributor: contributor@,
            },
            Event::ReputationEarned { voter, amount } => EventView::ReputationEarned {
                voter: voter@,
                amount: *amount,
            },
            Event::SlashApplied { maintainer, penalty } => EventView::SlashApplied {
                maintainer: maintainer@,
                penalty: *penalty,
            },
            Event::WaveCreated { id, name, end_block } => EventView::WaveCreated {
                id: *id,
                name: name@,
                end_block: *end_block,
            },
            Event::WaveFinalized { id } => EventView::WaveFinalized { id: *id },
            Event::PointsAdjusted { url, old_points, new_points } => EventView::PointsAdjusted {
                url: url@,
                old_points: *old_points,
                new_points: *new_points,
            },
            Event::ReputationMinted { user, amount } => EventView::ReputationMinted {
                user: user@,
                amount: *amount,
            },
            Event::ReputationBurned { user, amount } => EventView::ReputationBurned {
                user: user@,
                amount: *amount,
            },
            Event::ReputationDecayed { user, new_balance } => EventView::ReputationDecayed {
                user: user@,
                new_balance: *new_balance,
            },
            Event::EpochAdvanced { epoch } => EventView::EpochAdvanced { epoch: *epoch },
            Event::FastTrackProposed { url, proposer, reason } => EventView::FastTrackProposed {
                url: url@,
                proposer: proposer@,
                reason: reason@,
            },
            Event::FastTrackExecuted { url, timestamp } => EventView::FastTrackExecuted {
                url: url@,
                timestamp: *timestamp,
            },
            Event::MaintainerSlashed { maintainer, url, penalty, reason } =>
                EventView::MaintainerSlashed {
                maintainer: maintainer@,
                url: url@,
                penalty: *penalty,
                reason: reason@,
            },
            Event::SlashSettled { maintainer, amount } => EventView::SlashSettled {
                maintainer: maintainer@,
                amount: *amount,
            },
            Event::MaxPenaltyUpdated { old_max, new_max } => EventView::MaxPenaltyUpdated {
                old_max: *old_max,
                new_max: *new_max,
            },
        }
    }
}

/// A log of events seen event by event.
pub open spec fn log_view(log: Seq<Event>) -> Seq<EventView> {
    log.map_values(|e: Event| e@)
}

/// Moves every event of `src` onto the end of `dst`, the most recent first;
/// `src` is left empty.
pub fn drain_events_reversed(dst: &mut Vec<Event>, src: &mut Vec<Event>)
    ensures
        final(dst)@ == old(dst)@ + old(src)@.reverse(),
        final(src)@ == Seq::<Event>::empty(),
{
    let ghost s0 = src@;
    let ghost d0 = dst@;
    while src.len() > 0
        invariant
            src@ == s0.take(src@.len() as int),
            src@.len() <= s0.len(),
            dst@ == d0 + s0.skip(src@.len() as int).reverse(),
        decreases src@.len(),
    {
        let ghost k = src@.len();
        let ev = src.pop().unwrap();
        dst.push(ev);
        proof {
            assert(s0.skip(k - 1).reverse() =~= s0.skip(k as int).reverse().push(s0[k - 1]));
        }
    }
    assert(s0.skip(0) =~= s0);
}

/// Appending logs and viewing them commute.
pub proof fn lemma_log_view_add(a: Seq<Event>, b: Seq<Event>)
    ensures
        log_view(a + b) == log_view(a) + log_view(b),
{
    assert(log_view(a + b) =~= log_view(a) + log_view(b));
}

/// Reversing a log and viewing it commute.
pub proof fn lemma_log_view_reverse(a: Seq<Event>)
    ensures
        log_view(a.reverse()) == log_view(a).reverse(),
{
    assert(log_view(a.reverse()) =~= log_view(a).reverse());
}

} // verus!
