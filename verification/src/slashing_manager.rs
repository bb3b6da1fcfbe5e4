//! Penalties charged to maintainers who raise an issue's points after work on
//! it has started.

use vstd::prelude::*;
use vstd::hash_map::StringHashMap;
use vstd::string::StringExecFns;

use crate::errors::Error;
use crate::math;
use crate::math::{spec_apply_basis_points, BASIS_POINTS};
use crate::pair_map::PairMap;
use crate::types::{log_view, Event, EventView, SlashRecord, SlashRecordView};

verus! {

broadcast use vstd::hash_map::group_hash_map_axioms;

/// The penalty for raising points from `previous_points` to `new_points`:
/// `max_penalty_bps` basis points of the increase, rounded down.
pub open spec fn spec_penalty(previous_points: u64, new_points: u64, max_penalty_bps: u64) -> int {
    spec_apply_basis_points(new_points - previous_points, max_penalty_bps as int)
}

pub struct SlashingManager {
    pub wave_scoping: String,
    pub max_penalty_bps: u64,
    pub burn_rate_bps: u64,
    pub slash_records: PairMap<SlashRecord>,
    pub total_slashed: StringHashMap<u64>,
    pub events: Vec<Event>,
}

impl SlashingManager {
    /// Every slash record, by (maintainer, issue url).
    pub open spec fn records(&self) -> Map<(Seq<char>, Seq<char>), SlashRecordView> {
        self.slash_records@.map_values(|r: SlashRecord| r@)
    }

    /// The sum of penalties charged to a maintainer; zero for one never slashed.
    pub open spec fn total_of(&self, maintainer: Seq<char>) -> u64 {
        if self.total_slashed@.contains_key(maintainer) {
            self.total_slashed@[maintainer]
        } else {
            0
        }
    }

    /// The first reason a slash would be refused, if any.
    pub open spec fn slash_refusal(
        &self,
        maintainer: Seq<char>,
        issue_url: Seq<char>,
        previous_points: u64,
        new_points: u64,
    ) -> Option<Error> {
        if new_points <= previous_points {
            Some(Error::NoChangeDetected)
        } else if self.records().contains_key((maintainer, issue_url)) && self.records()[(
        maintainer,
        issue_url,
        )].applied {
            Some(Error::DuplicateSlash)
        } else {
            None
        }
    }

    /// Charging the penalty for this slash can neither overflow nor underflow.
    pub open spec fn can_slash(
        &self,
        maintainer: Seq<char>,
        issue_url: Seq<char>,
        previous_points: u64,
        new_points: u64,
    ) -> bool {
        let penalty = spec_penalty(previous_points, new_points, self.max_penalty_bps);
        self.slash_refusal(maintainer, issue_url, previous_points, new_points) is None ==> {
            &&& (new_points - previous_points) * self.max_penalty_bps <= u64::MAX
            &&& penalty * self.burn_rate_bps <= u64::MAX
            &&& spec_apply_basis_points(penalty, self.burn_rate_bps as int) <= penalty
            &&& self.total_of(maintainer) + penalty <= u64::MAX
        }
    }

    /// Refused when the maximum penalty exceeds one hundred percent.
    pub fn new(wave_scoping: &str, max_penalty_bps: u64, burn_rate_bps: u64) -> (r: Result<Self, Error>)
        ensures
            max_penalty_bps > BASIS_POINTS ==> r == Err::<Self, Error>(Error::PenaltyExceedsMax),
            max_penalty_bps <= BASIS_POINTS ==> (r matches Ok(m) && {
                &&& m.wave_scoping@ == wave_scoping@
                &&& m.max_penalty_bps == max_penalty_bps
                &&& m.burn_rate_bps == burn_rate_bps
                &&& m.records() == Map::<(Seq<char>, Seq<char>), SlashRecordView>::empty()
                &&& m.total_slashed@ == Map::<Seq<char>, u64>::empty()
                &&& m.events@ == Seq::<Event>::empty()
            }),
    {
        if max_penalty_bps > BASIS_POINTS {
            return Err(Error::PenaltyExceedsMax);
        }
        let m = SlashingManager {
            wave_scoping: String::from_str(wave_scoping),
            max_penalty_bps,
            burn_rate_bps,
            slash_records: PairMap::new(),
            total_slashed: StringHashMap::new(),
            events: Vec::new(),
        };
        assert(m.records() =~= Map::<(Seq<char>, Seq<char>), SlashRecordView>::empty());
        Ok(m)
    }

    /// Charges `maintainer` for raising the points of `issue_url` from
    /// `previous_points` to `new_points`, at most once per issue; returns the penalty.
    pub fn slash(
        &mut self,
        maintainer: &str,
        issue_url: &str,
        previous_points: u64,
        new_points: u64,
        reason: &str,
    ) -> (r: Result<u64, Error>)
        requires
            old(self).can_slash(maintainer@, issue_url@, previous_points, new_points),
        ensures
            final(self).wave_scoping == old(self).wave_scoping,
            final(self).max_penalty_bps == old(self).max_penalty_bps,
            final(self).burn_rate_bps == old(self).burn_rate_bps,
            old(self).slash_refusal(maintainer@, issue_url@, previous_points, new_points) matches Some(e)
                ==> {
                &&& r == Err::<u64, Error>(e)
                &&& *final(self) == *old(self)
            },
            old(self).slash_refusal(maintainer@, issue_url@, previous_points, new_points) is None ==> {
                let penalty = spec_penalty(previous_points, new_points, old(self).max_penalty_bps);
                &&& r == Ok::<u64, Error>(penalty as u64)
                &&& final(self).records() == old(self).records().insert(
                    (maintainer@, issue_url@),
                    SlashRecordView {
                        maintainer: maintainer@,
                        issue_url: issue_url@,
                        penalty: penalty as u64,
                        timestamp: 0,
                        applied: true,
                    },
                )
                &&& final(self).total_slashed@ == old(self).total_slashed@.insert(
                    maintainer@,
                    (old(self).total_of(maintainer@) + penalty) as u64,
                )
                &&& log_view(final(self).events@) == log_view(old(self).events@).push(
                    EventView::MaintainerSlashed {
                        maintainer: maintainer@,
                        url: issue_url@,
                        penalty: penalty as u64,
                        reason: reason@,
                    },
                )
            },
    {
        if new_points <= previous_points {
            return Err(Error::NoChangeDetected);
        }
        let already = match self.slash_records.get(maintainer, issue_url) {
            Some(rec) => rec.applied,
            None => false,
        };
        if already {
            return Err(Error::DuplicateSlash);
        }
        let point_diff = new_points - previous_points;
        let penalty = math::apply_basis_points(point_diff, self.max_penalty_bps);
        let _burn_amount = math::apply_basis_points(penalty, self.burn_rate_bps);
        let _slashed_amount = penalty - _burn_amount;
        let record = SlashRecord {
            maintainer: String::from_str(maintainer),
            issue_url: String::from_str(issue_url),
            penalty,
            timestamp: 0,
            applied: true,
        };
        self.slash_records.insert(maintainer, issue_url, record);
        let total = self.total_slashed(maintainer);
        self.total_slashed.insert(String::from_str(maintainer), total + penalty);
        let ghost events0 = self.events@;
        self.events.push(
            Event::MaintainerSlashed {
                maintainer: String::from_str(maintainer),
                url: String::from_str(issue_url),
                penalty,
                reason: String::from_str(reason),
            },
        );
        proof {
            assert(self.events@ == events0.push(self.events@.last()));
            assert(log_view(self.events@) =~= log_view(events0).push(
                EventView::MaintainerSlashed {
                    maintainer: maintainer@,
                    url: issue_url@,
                    penalty,
                    reason: reason@,
                },
            ));
            assert(self.records() =~= old(self).records().insert(
                (maintainer@, issue_url@),
                SlashRecordView {
                    maintainer: maintainer@,
                    issue_url: issue_url@,
                    penalty,
                    timestamp: 0,
                    applied: true,
                },
            ));
        }
        Ok(penalty)
    }

    pub fn get_slash_record(&self, maintainer: &str, issue_url: &str) -> (r: Option<&SlashRecord>)
        ensures
            match r {
                Some(rec) => self.records().contains_key((maintainer@, issue_url@)) && rec@
                    == self.records()[(maintainer@, issue_url@)],
                None => !self.records().contains_key((maintainer@, issue_url@)),
            },
    {
        self.slash_records.get(maintainer, issue_url)
    }

    pub fn total_slashed(&self, maintainer: &str) -> (r: u64)
        ensures
            r == self.total_of(maintainer@),
    {
        match self.total_slashed.get(maintainer) {
            Some(t) => *t,
            None => 0,
        }
    }
}

/// A maintainer is slashed at most once per issue: after a slash is recorded,
/// every further slash of the same maintainer for the same issue is refused.
pub proof fn law_one_slash_per_issue(
    s0: SlashingManager,
    s1: SlashingManager,
    maintainer: Seq<char>,
    issue_url: Seq<char>,
    first: SlashRecordView,
    previous_points: u64,
    new_points: u64,
)
    requires
        first.applied,
        s1.records() == s0.records().insert((maintainer, issue_url), first),
    ensures
        s1.slash_refusal(maintainer, issue_url, previous_points, new_points) is Some,
{
}

/// While the maximum penalty is at most one hundred percent, the penalty is
/// never negative and never more than the increase in points.
pub proof fn law_penalty_bounds(previous_points: u64, new_points: u64, max_penalty_bps: u64)
    requires
        previous_points < new_points,
        max_penalty_bps <= BASIS_POINTS,
    ensures
        0 <= spec_penalty(previous_points, new_points, max_penalty_bps) <= new_points - previous_points,
{
    math::lemma_basis_points_bounds(new_points - previous_points, max_penalty_bps as int);
}


/// The penalty for raising points from `previous_points` to `new_points` is the
/// increase times `max_penalty_bps`, over ten thousand, rounded down.
pub proof fn law_penalty_formula(previous_points: u64, new_points: u64, max_penalty_bps: u64)
    requires
        previous_points < new_points,
    ensures
        spec_penalty(previous_points, new_points, max_penalty_bps) == (new_points - previous_points)
            * max_penalty_bps / 10000,
{
}

/// A slash is refused exactly when the points do not rise, or when the
/// maintainer was already slashed for the issue.
pub proof fn law_slash_refusals(
    s: SlashingManager,
    maintainer: Seq<char>,
    issue_url: Seq<char>,
    previous_points: u64,
    new_points: u64,
)
    ensures
        new_points <= previous_points ==> s.slash_refusal(maintainer, issue_url, previous_points, new_points)
            == Some(Error::NoChangeDetected),
        new_points > previous_points && s.records().contains_key((maintainer, issue_url))
            && s.records()[(maintainer, issue_url)].applied ==> s.slash_refusal(
            maintainer,
            issue_url,
            previous_points,
            new_points,
        ) == Some(Error::DuplicateSlash),
        new_points > previous_points && !(s.records().contains_key((maintainer, issue_url))
            && s.records()[(maintainer, issue_url)].applied) ==> s.slash_refusal(
            maintainer,
            issue_url,
            previous_points,
            new_points,
        ) is None,
{
}


/// A maintainer's total is the sum recorded for them, and zero for one never slashed.
pub proof fn law_total_of(s: SlashingManager, maintainer: Seq<char>)
    ensures
        s.total_slashed@.contains_key(maintainer) ==> s.total_of(maintainer)
            == s.total_slashed@[maintainer],
        !s.total_slashed@.contains_key(maintainer) ==> s.total_of(maintainer) == 0,
{
}

} // verus!
