//! The lifecycle of a wave: when votes are taken and how a wave is named.

use std::collections::hash_map::DefaultHasher;
use std::hash::{Hash, Hasher};

use vstd::prelude::*;

use crate::types::{WaveConfig, WaveData};

verus! {

/// The digest that std's `DefaultHasher`, freshly made by `DefaultHasher::new`,
/// finishes with after hashing the text `name` and then the number `start_block`.
pub uninterp spec fn default_hash_of_name_and_block(name: Seq<char>, start_block: u64) -> u64;

/// Hashes `name` and then `start_block` with a fresh `DefaultHasher` and returns
/// `Hasher::finish`. `DefaultHasher::new` is documented to build the same hasher
/// every time, so the digest is taken to depend on the two arguments alone; what
/// the digest is (SipHash over std's encoding of the two values) is not stated.
#[verifier::external_body]
fn hash_name_and_block(name: &str, start_block: u64) -> (r: u64)
    ensures
        r == default_hash_of_name_and_block(name@, start_block),
{
    let mut hasher = DefaultHasher::new();
    name.hash(&mut hasher);
    start_block.hash(&mut hasher);
    hasher.finish()
}

/// Votes are taken while the wave is active, not finalized, and the block lies
/// within its start and end blocks, both included.
pub open spec fn spec_within_voting_period(wave: WaveData, block_number: u64) -> bool {
    &&& wave.is_active
    &&& !wave.is_finalized
    &&& wave.start_block <= block_number
    &&& block_number <= wave.end_block
}

pub fn is_within_voting_period(wave: &WaveData, _config: &WaveConfig, block_number: u64) -> (r: bool)
    ensures
        r == spec_within_voting_period(*wave, block_number),
{
    wave.is_active && !wave.is_finalized && block_number >= wave.start_block && block_number
        <= wave.end_block
}

pub fn has_voting_ended(wave: &WaveData, block_number: u64) -> (r: bool)
    ensures
        r == (block_number > wave.end_block),
{
    block_number > wave.end_block
}

/// A usable configuration has every parameter positive.
pub open spec fn spec_valid_wave_config(config: WaveConfig) -> bool {
    &&& config.voting_period_blocks > 0
    &&& config.emergency_timelock > 0
    &&& config.max_weight_per_vote > 0
    &&& config.points_divisor > 0
}

pub fn validate_wave_config(config: &WaveConfig) -> (r: bool)
    ensures
        r == spec_valid_wave_config(*config),
{
    config.voting_period_blocks > 0 && config.emergency_timelock > 0 && config.max_weight_per_vote
        > 0 && config.points_divisor > 0
}

/// The identifier of a wave named `name` that starts at `start_block`.
pub fn encode_wave_id(name: &str, start_block: u64) -> (r: u64)
    ensures
        r == default_hash_of_name_and_block(name@, start_block),
{
    hash_name_and_block(name, start_block)
}

/// After its last block a wave no longer takes votes.
pub proof fn lemma_no_votes_after_end(wave: WaveData, block_number: u64)
    requires
        block_number > wave.end_block,
    ensures
        !spec_within_voting_period(wave, block_number),
{
}

/// A finalized wave no longer takes votes.
pub proof fn lemma_no_votes_once_finalized(wave: WaveData, block_number: u64)
    requires
        wave.is_finalized,
    ensures
        !spec_within_voting_period(wave, block_number),
{
}


/// A wave takes votes exactly while it is active, not finalized, and the block
/// lies between its start and end blocks, both included.
pub proof fn law_voting_period(wave: WaveData, block_number: u64)
    ensures
        spec_within_voting_period(wave, block_number) <==> (wave.is_active && !wave.is_finalized
            && wave.start_block <= block_number && block_number <= wave.end_block),
{
}


/// A configuration is usable exactly when every parameter is positive.
pub proof fn law_valid_wave_config(config: WaveConfig)
    ensures
        spec_valid_wave_config(config) <==> (config.voting_period_blocks > 0
            && config.emergency_timelock > 0 && config.max_weight_per_vote > 0
            && config.points_divisor > 0),
{
}

} // verus!
