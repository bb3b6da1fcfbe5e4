use wave_scoping::emergency_scoping::EmergencyScoping;
use wave_scoping::errors::Error;
use wave_scoping::math;
use wave_scoping::reputation_manager::ReputationManager;
use wave_scoping::slashing_manager::SlashingManager;
use wave_scoping::types::{Event, WaveConfig, WaveData};
use wave_scoping::wave;
use wave_scoping::wave_scoping::WaveScoping;

const URL: &str = "https://github.com/owner/repo/issues/7";

fn hub() -> WaveScoping {
    WaveScoping::new("owner", 1000, 5, 100, 10, 100, 2000, 5000).unwrap()
}

fn hub_with_issue() -> WaveScoping {
    let mut h = hub();
    h.create_wave("owner", "Sprint", 1000).unwrap();
    h.register_issue("owner", URL).unwrap();
    h
}

fn sample_wave(start: u64, end: u64, active: bool, finalized: bool) -> WaveData {
    WaveData {
        id: 1,
        name: "w".to_string(),
        start_block: start,
        end_block: end,
        is_active: active,
        is_finalized: finalized,
        total_weight_cast: 0,
        issue_count: 0,
    }
}

#[test]
fn math_exact_values() {
    assert_eq!(math::min(3, 9), 3);
    assert_eq!(math::max(3, 9), 9);
    assert_eq!(math::apply_basis_points(40, 2000), 8);
    assert_eq!(math::apply_basis_points(4, 2000), 0);
    assert_eq!(math::calculate_weighted_score(30, 100, 10), 40);
    assert_eq!(math::calculate_points(55, 10), 5);
    assert_eq!(math::decay(100, 100), 99);
    assert_eq!(math::decay(99, 100), 98);
    assert_eq!(math::decay(7, 10_000), 0);
    assert!(math::is_in_range(5, 5, 6));
    assert!(!math::is_in_range(7, 5, 6));
}

#[test]
fn voting_period_bounds() {
    let config = WaveConfig { voting_period_blocks: 10, emergency_timelock: 1, max_weight_per_vote: 1, points_divisor: 1 };
    let w = sample_wave(10, 20, true, false);
    assert!(wave::is_within_voting_period(&w, &config, 10));
    assert!(wave::is_within_voting_period(&w, &config, 20));
    assert!(!wave::is_within_voting_period(&w, &config, 9));
    assert!(!wave::is_within_voting_period(&w, &config, 21));
    assert!(!wave::is_within_voting_period(&sample_wave(10, 20, true, true), &config, 15));
    assert!(!wave::is_within_voting_period(&sample_wave(10, 20, false, false), &config, 15));
    assert!(wave::has_voting_ended(&w, 21));
    assert!(!wave::has_voting_ended(&w, 20));
    assert!(wave::validate_wave_config(&config));
    let zero = WaveConfig { points_divisor: 0, ..config };
    assert!(!wave::validate_wave_config(&zero));
}

#[test]
fn wave_id_depends_on_name_and_block() {
    let a = wave::encode_wave_id("Sprint", 7);
    assert_eq!(a, wave::encode_wave_id("Sprint", 7));
    assert_ne!(a, 7);
    let mut h = hub();
    let id = h.create_wave("owner", "Sprint", 3).unwrap();
    assert_eq!(id, wave::encode_wave_id("Sprint", 0));
    assert_eq!(h.current_wave_id, id);
    let w = h.get_current_wave().unwrap();
    assert_eq!(w.start_block, 0);
    assert_eq!(w.end_block, 3);
    assert_eq!(w.name, "Sprint");
}

#[test]
fn create_wave_with_given_id() {
    let mut h = hub();
    assert_eq!(h.create_wave_with_id("owner", "Named", 50, 42), Ok(42));
    let w = h.get_wave(42).unwrap();
    assert!(w.is_active && !w.is_finalized);
    assert_eq!(w.end_block, 50);
    assert_eq!(h.create_wave_with_id("alice", "Named", 50, 43), Err(Error::NotOwner));
    assert!(h.get_wave(43).is_none());
}

#[test]
fn error_messages() {
    assert_eq!(Error::NotOwner.message(), "Not owner");
    assert_eq!(Error::NotRegistered.message(), "Issue not registered");
    assert_eq!(
        Error::InsufficientReputation("alice".to_string(), 10, 100).message(),
        "Insufficient reputation for alice: have 10, need 100"
    );
    assert_eq!(
        Error::NotEnoughReputation("bob".to_string(), 0, 9).message(),
        "Not enough reputation for bob: have 0, need 9"
    );
    assert_eq!(Error::DecayAlreadyApplied(1207).message(), "Decay already applied for epoch 1207");
    assert_eq!(
        Error::DecayAlreadyApplied(u64::MAX).message(),
        "Decay already applied for epoch 18446744073709551615"
    );
}

#[test]
fn decay_exact_and_never_raises() {
    let mut rm = ReputationManager::new("hub", 100, 10);
    rm.mint_reputation("alice", 100).unwrap();
    rm.decay_all();
    rm.decay_all();
    rm.mint_reputation("alice", 0).unwrap();
    assert_eq!(rm.balance_of("alice"), 98);
    assert!(matches!(rm.events.last(), Some(Event::ReputationMinted { amount: 0, .. })));
    assert!(matches!(
        rm.events[rm.events.len() - 2],
        Event::ReputationDecayed { new_balance: 98, .. }
    ));
}

#[test]
fn decay_covers_every_dormant_epoch() {
    let mut rm = ReputationManager::new("hub", 100, 10);
    rm.mint_reputation("alice", 1_000_000).unwrap();
    let mut expected: u64 = 1_000_000;
    for _ in 0..150 {
        rm.decay_all();
        expected = expected * 9900 / 10000;
        assert_eq!(rm.balance_of("alice"), expected);
    }
    rm.mint_reputation("alice", 0).unwrap();
    assert_eq!(rm.balance_of("alice"), expected);
    let mut idle = ReputationManager::new("hub", 0, 10);
    idle.mint_reputation("bob", 7).unwrap();
    for _ in 0..300 {
        idle.decay_all();
    }
    assert_eq!(idle.balance_of("bob"), 7);
    let mut small = ReputationManager::new("hub", 5000, 10);
    small.mint_reputation("carol", 3).unwrap();
    for _ in 0..5 {
        small.decay_all();
    }
    assert_eq!(small.balance_of("carol"), 0);
}

#[test]
fn burn_undoes_mint() {
    let mut rm = ReputationManager::new("hub", 100, 10);
    rm.mint_reputation("alice", 500).unwrap();
    rm.decay_all();
    rm.mint_reputation("alice", 77).unwrap();
    let after_mint = rm.balance_of("alice");
    assert_eq!(after_mint, 495 + 77);
    rm.burn_reputation("alice", 77).unwrap();
    assert_eq!(rm.balance_of("alice"), 495);
}

#[test]
fn reputation_refusals() {
    let mut rm = ReputationManager::new("hub", 100, 10);
    assert_eq!(rm.mint_reputation("", 5), Err(Error::ZeroAddress));
    assert_eq!(rm.burn_reputation("", 5), Err(Error::ZeroAddress));
    assert_eq!(rm.consume_reputation("", 5), Err(Error::ZeroAddress));
    rm.mint_reputation("bob", 5).unwrap();
    assert_eq!(rm.consume_reputation("bob", 6), Ok(false));
    assert_eq!(rm.balance_of("bob"), 5);
    assert_eq!(rm.consume_reputation("bob", 5), Ok(true));
    assert_eq!(rm.balance_of("bob"), 0);
    assert_eq!(rm.reputation_to_weight(12), 12);
}

#[test]
fn proposal_executes_once_after_timelock() {
    let mut es = EmergencyScoping::new("hub", 5);
    assert_eq!(es.propose_fast_track(URL, "", "owner", "owner", 10), Err(Error::EmptyReason));
    es.propose_fast_track(URL, "why", "owner", "owner", 10).unwrap();
    assert!(!es.is_fast_tracked(URL));
    assert_eq!(es.execute_fast_track(URL, "owner", "owner", 14), Err(Error::TimelockNotMet));
    assert_eq!(es.execute_fast_track(URL, "owner", "mallory", 20), Err(Error::NotAuthorized));
    assert_eq!(es.execute_fast_track("missing", "owner", "owner", 20), Err(Error::NotAuthorized));
    assert_eq!(es.execute_fast_track(URL, "owner", "owner", 15), Ok(()));
    assert!(es.is_fast_tracked(URL));
    assert_eq!(es.execute_fast_track(URL, "owner", "owner", 99), Err(Error::AlreadyExecuted));
    let p = es.get_proposal(URL).unwrap();
    assert_eq!(p.proposer, "owner");
    assert_eq!(p.proposed_at, 10);
    assert_eq!(p.reason, "why");
}

#[test]
fn penalty_bounds_and_aggregation() {
    assert_eq!(
        SlashingManager::new("hub", 10_001, 0).err(),
        Some(Error::PenaltyExceedsMax)
    );
    let mut sm = SlashingManager::new("hub", 2000, 5000).unwrap();
    assert_eq!(sm.slash("m", "a", 10, 14, "r"), Ok(0));
    assert_eq!(sm.slash("m", "b", 0, 50, "r"), Ok(10));
    assert_eq!(sm.total_slashed("m"), 10);
    assert!(sm.get_slash_record("m", "a").unwrap().applied);
    assert_eq!(sm.slash("m", "a", 10, 14, "r"), Err(Error::DuplicateSlash));
    let mut lenient = SlashingManager::new("hub", 0, 0).unwrap();
    assert_eq!(lenient.slash("m", "a", 0, 1000, "r"), Ok(0));
    assert_eq!(sm.total_slashed("nobody"), 0);
    assert_eq!(sm.slash("m", "b", 0, 90, "again"), Err(Error::DuplicateSlash));
    assert_eq!(sm.slash("other", "b", 0, 90, "other maintainer"), Ok(18));
    assert!(sm.get_slash_record("m", "c").is_none());
    let mut full = SlashingManager::new("hub", 10_000, 0).unwrap();
    assert_eq!(full.slash("m", "a", 3, 8, "r"), Ok(5));
}

#[test]
fn one_vote_per_voter_and_issue() {
    let mut h = hub_with_issue();
    h.vote_on_issue("alice", URL, 10).unwrap();
    assert_eq!(h.vote_on_issue("alice", URL, 10), Err(Error::AlreadyVoted));
    assert_eq!(h.vote_on_issue("alice", URL, 100), Err(Error::AlreadyVoted));
    assert_eq!(h.vote_on_issue("bob", URL, 10), Ok(()));
    assert_eq!(h.total_votes, 2);
}

#[test]
fn vote_weight_is_boosted_and_capped() {
    let mut h = hub_with_issue();
    h.reputation_manager.mint_reputation("alice", 100).unwrap();
    h.vote_on_issue("alice", URL, 30).unwrap();
    assert_eq!(h.get_voter_weight("alice", URL), 40);
    h.reputation_manager.mint_reputation("whale", 1_000_000).unwrap();
    h.vote_on_issue("whale", URL, 1).unwrap();
    assert_eq!(h.get_voter_weight("whale", URL), 100);
    let (weight, points, _, _) = h.get_issue(URL).unwrap();
    assert_eq!(weight, 140);
    assert_eq!(points, 14);
    assert_eq!(h.get_voter_weight("nobody", URL), 0);
    assert_eq!(h.reputation_manager.balance_of("alice"), 100 + 30 / 10 + 1);
}

#[test]
fn vote_logs_events_in_order() {
    let mut h = hub_with_issue();
    h.vote_on_issue("alice", URL, 25).unwrap();
    let n = h.events.len();
    assert!(matches!(h.events[n - 3], Event::ReputationMinted { amount: 3, .. }));
    assert!(matches!(h.events[n - 2], Event::Voted { weight: 25, .. }));
    assert!(matches!(h.events[n - 1], Event::ReputationEarned { amount: 3, .. }));
    assert!(h.reputation_manager.events.is_empty());
}

#[test]
fn empty_voter_is_refused_after_recording() {
    let mut h = hub_with_issue();
    assert_eq!(h.vote_on_issue("", URL, 10), Err(Error::ZeroAddress));
    assert_eq!(h.get_voter_weight("", URL), 10);
    assert_eq!(h.get_issue(URL).unwrap().0, 10);
    assert_eq!(h.total_votes, 0);
}

#[test]
fn finalized_or_ended_wave_takes_no_votes() {
    let mut h = hub_with_issue();
    let id = h.current_wave_id;
    h.finalize_wave("owner", id).unwrap();
    assert_eq!(h.finalize_wave("owner", id), Err(Error::WaveAlreadyFinalized));
    assert_eq!(h.finalize_wave("owner", id.wrapping_add(1)), Err(Error::WaveNotActive));
    assert_eq!(h.finalize_wave("alice", id), Err(Error::NotOwner));
    assert_eq!(h.vote_on_issue("alice", URL, 10), Err(Error::WaveNotActive));

    let mut h2 = hub_with_issue();
    h2.advance_blocks(1000);
    assert_eq!(h2.vote_on_issue("alice", URL, 10), Ok(()));
    h2.advance_blocks(1);
    assert_eq!(h2.vote_on_issue("bob", URL, 10), Err(Error::WaveNotActive));
}

#[test]
fn registration_counts() {
    let mut h = hub_with_issue();
    h.register_issue("owner", "second").unwrap();
    assert_eq!(h.total_issues, 2);
    assert_eq!(h.get_current_wave().unwrap().issue_count, 2);
    let mut bare = hub();
    bare.register_issue("owner", "no wave yet").unwrap();
    assert_eq!(bare.total_issues, 1);
    assert!(bare.get_current_wave().is_none());
    assert_eq!(bare.vote_on_issue("alice", "no wave yet", 10), Err(Error::WaveNotActive));
}

#[test]
fn fast_track_boost_and_refusals() {
    let mut h = hub_with_issue();
    assert_eq!(h.fast_track_issue("alice", URL, "r"), Err(Error::NotOwner));
    assert_eq!(h.fast_track_issue("owner", "missing", "r"), Err(Error::NotRegistered));
    assert_eq!(h.fast_track_issue("owner", URL, ""), Err(Error::EmptyReason));
    assert_eq!(h.block_number, 0);
    h.vote_on_issue("alice", URL, 10).unwrap();
    h.fast_track_issue("owner", URL, "outage").unwrap();
    assert_eq!(h.block_number, 6);
    let (weight, _, emergency, _) = h.get_issue(URL).unwrap();
    assert!(emergency);
    assert_eq!(weight, 10 + 200);
    assert!(h.emergency_scoping.is_fast_tracked(URL));
    assert_eq!(h.fast_track_issue("owner", URL, "again"), Err(Error::AlreadyProposed));
    assert!(matches!(h.events.last(), Some(Event::IssueFastTracked { .. })));
}

#[test]
fn fast_track_stops_at_a_longer_timelock() {
    let mut h = hub_with_issue();
    h.emergency_scoping.timelock_blocks = 100;
    assert_eq!(h.fast_track_issue("owner", URL, "outage"), Err(Error::TimelockNotMet));
    assert_eq!(h.block_number, 6);
    assert!(h.emergency_scoping.get_proposal(URL).is_some());
    assert!(!h.emergency_scoping.is_fast_tracked(URL));
    assert!(!h.get_issue(URL).unwrap().2);
}

#[test]
fn adjusting_after_grace_slashes() {
    let mut h = hub_with_issue();
    h.start_work("carol", URL).unwrap();
    assert_eq!(h.start_work("dave", URL), Err(Error::PointsAlreadyAssigned));
    assert_eq!(h.start_work("dave", "missing"), Err(Error::NotRegistered));
    h.advance_blocks(5);
    h.adjust_points("owner", URL, 7, "within grace").unwrap();
    assert_eq!(h.slashing_manager.total_slashed("owner"), 0);
    h.advance_blocks(1);
    assert_eq!(h.adjust_points("owner", URL, 3, "lower"), Err(Error::NoChangeDetected));
    assert_eq!(h.get_issue(URL).unwrap().1, 7);
    h.adjust_points("owner", URL, 57, "raise").unwrap();
    assert_eq!(h.get_issue(URL).unwrap().1, 57);
    assert_eq!(h.slashing_manager.total_slashed("owner"), 10);
    assert_eq!(h.adjust_points("owner", URL, 80, "again"), Err(Error::DuplicateSlash));
    assert_eq!(h.adjust_points("alice", URL, 80, "x"), Err(Error::NotOwner));
    assert_eq!(h.adjust_points("owner", "missing", 80, "x"), Err(Error::NotRegistered));
    assert!(matches!(h.events.last(), Some(Event::PointsAdjusted { old_points: 7, new_points: 57, .. })));
}

#[test]
fn ownership_rules() {
    let mut h = hub();
    assert_eq!(h.set_owner("alice", "bob"), Err(Error::NotOwner));
    assert_eq!(h.set_owner("owner", ""), Err(Error::ZeroAddress));
    assert_eq!(h.owner, "owner");
    assert_eq!(h.create_wave("alice", "w", 10), Err(Error::NotOwner));
    assert_eq!(h.get_wave_config().max_weight_per_vote, 100);
    assert_eq!(h.reputation_manager.wave_scoping, "hub:owner");
    assert!(WaveScoping::new("owner", 1, 1, 1, 1, 0, 10_001, 0).is_err());
}

#[test]
fn new_epoch_decays_dormant_balances() {
    let mut rm = ReputationManager::new("hub", 100, 10);
    rm.mint_reputation("alice", 100).unwrap();
    rm.decay_all();
    assert_eq!(rm.balance_of("alice"), 99);
    rm.decay_all();
    assert_eq!(rm.balance_of("alice"), 98);
    assert_eq!(rm.balance_of("nobody"), 0);
}

#[test]
fn dormant_reputation_boosts_votes_less() {
    let mut h = hub_with_issue();
    h.reputation_manager.mint_reputation("alice", 1000).unwrap();
    for _ in 0..20 {
        h.reputation_manager.decay_all();
    }
    let mut expected: u64 = 1000;
    for _ in 0..20 {
        expected = expected * 9900 / 10000;
    }
    assert_eq!(h.reputation_manager.balance_of("alice"), expected);
    h.vote_on_issue("alice", URL, 10).unwrap();
    assert_eq!(h.get_voter_weight("alice", URL), 10 + expected / 10);
}

