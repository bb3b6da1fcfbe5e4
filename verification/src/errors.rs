//! Why an operation was refused.

use vstd::prelude::*;
use vstd::string::StringExecFns;

verus! {

#[derive(Debug, Clone, PartialEq, Eq)]
pub enum Error {
    NotOwner,
    AlreadyRegistered,
    NotRegistered,
    AlreadyVoted,
    InvalidWeight,
    WaveNotActive,
    WaveAlreadyFinalized,
    PointsAlreadyAssigned,
    NotContributor,
    EmergencyOnly,
    SlashAlreadyApplied,
    ZeroAddress,
    NotEnoughReputation(String, u64, u64),
    InsufficientReputation(String, u64, u64),
    NotAuthorized,
    DuplicateSlash,
    NoChangeDetected,
    PenaltyExceedsMax,
    AlreadyProposed,
    TimelockNotMet,
    AlreadyExecuted,
    NotProposer,
    EmptyReason,
    DecayAlreadyApplied(u64),
}

/// The text of one decimal digit.
pub open spec fn digit_text(d: nat) -> Seq<char> {
    if d == 0 {
        "0"@
    } else if d == 1 {
        "1"@
    } else if d == 2 {
        "2"@
    } else if d == 3 {
        "3"@
    } else if d == 4 {
        "4"@
    } else if d == 5 {
        "5"@
    } else if d == 6 {
        "6"@
    } else if d == 7 {
        "7"@
    } else if d == 8 {
        "8"@
    } else {
        "9"@
    }
}

/// The decimal notation of `n`, without leading zeros.
pub open spec fn decimal_text(n: nat) -> Seq<char>
    decreases n,
{
    if n < 10 {
        digit_text(n)
    } else {
        decimal_text(n / 10) + digit_text(n % 10)
    }
}

fn digit_string(d: u64) -> (r: String)
    requires
        d < 10,
    ensures
        r@ == digit_text(d as nat),
{
    let lit = if d == 0 {
        "0"
    } else if d == 1 {
        "1"
    } else if d == 2 {
        "2"
    } else if d == 3 {
        "3"
    } else if d == 4 {
        "4"
    } else if d == 5 {
        "5"
    } else if d == 6 {
        "6"
    } else if d == 7 {
        "7"
    } else if d == 8 {
        "8"
    } else {
        "9"
    };
    String::from_str(lit)
}

/// `n` written in decimal.
pub fn decimal_string(n: u64) -> (r: String)
    ensures
        r@ == decimal_text(n as nat),
    decreases n,
{
    if n < 10 {
        digit_string(n)
    } else {
        let mut s = decimal_string(n / 10);
        let d = digit_string(n % 10);
        s.append(d.as_str());
        s
    }
}

/// The human-readable description of an error.
pub open spec fn error_text(e: Error) -> Seq<char> {
    match e {
        Error::NotOwner => "Not owner"@,
        Error::AlreadyRegistered => "Already registered"@,
        Error::NotRegistered => "Issue not registered"@,
        Error::AlreadyVoted => "Already voted"@,
        Error::InvalidWeight => "Invalid weight"@,
        Error::WaveNotActive => "Wave not active"@,
        Error::WaveAlreadyFinalized => "Wave already finalized"@,
        Error::PointsAlreadyAssigned => "Points already assigned"@,
        Error::NotContributor => "Not contributor"@,
        Error::EmergencyOnly => "Emergency only"@,
        Error::SlashAlreadyApplied => "Slash already applied"@,
        Error::ZeroAddress => "Zero address"@,
        Error::NotEnoughReputation(user, have, need) => "Not enough reputation for "@ + user@
            + ": have "@ + decimal_text(have as nat) + ", need "@ + decimal_text(need as nat),
        Error::InsufficientReputation(user, have, need) => "Insufficient reputation for "@ + user@
            + ": have "@ + decimal_text(have as nat) + ", need "@ + decimal_text(need as nat),
        Error::NotAuthorized => "Not authorized"@,
        Error::DuplicateSlash => "Duplicate slash"@,
        Error::NoChangeDetected => "No change detected"@,
        Error::PenaltyExceedsMax => "Penalty exceeds max"@,
        Error::AlreadyProposed => "Already proposed"@,
        Error::TimelockNotMet => "Timelock not met"@,
        Error::AlreadyExecuted => "Already executed"@,
        Error::NotProposer => "Not proposer"@,
        Error::EmptyReason => "Empty reason"@,
        Error::DecayAlreadyApplied(epoch) => "Decay already applied for epoch "@ + decimal_text(
            epoch as nat,
        ),
    }
}

/// `prefix`, then `user`, then the two amounts it has and needs.
fn reputation_message(prefix: &str, user: &String, have: u64, need: u64) -> (r: String)
    ensures
        r@ == prefix@ + user@ + ": have "@ + decimal_text(have as nat) + ", need "@ + decimal_text(
            need as nat,
        ),
{
    let mut s = String::from_str(prefix);
    s.append(user.as_str());
    s.append(": have ");
    let h = decimal_string(have);
    s.append(h.as_str());
    s.append(", need ");
    let n = decimal_string(need);
    s.append(n.as_str());
    s
}

impl Error {
    /// The human-readable description of this error.
    pub fn message(&self) -> (r: String)
        ensures
            r@ == error_text(*self),
    {
        match self {
            Error::NotOwner => String::from_str("Not owner"),
            Error::AlreadyRegistered => String::from_str("Already registered"),
            Error::NotRegistered => String::from_str("Issue not registered"),
            Error::AlreadyVoted => String::from_str("Already voted"),
            Error::InvalidWeight => String::from_str("Invalid weight"),
            Error::WaveNotActive => String::from_str("Wave not active"),
            Error::WaveAlreadyFinalized => String::from_str("Wave already finalized"),
            Error::PointsAlreadyAssigned => String::from_str("Points already assigned"),
            Error::NotContributor => String::from_str("Not contributor"),
            Error::EmergencyOnly => String::from_str("Emergency only"),
            Error::SlashAlreadyApplied => String::from_str("Slash already applied"),
            Error::ZeroAddress => String::from_str("Zero address"),
            Error::NotEnoughReputation(user, have, need) => reputation_message(
                "Not enough reputation for ",
                user,
                *have,
                *need,
            ),
            Error::InsufficientReputation(user, have, need) => reputation_message(
                "Insufficient reputation for ",
                user,
                *have,
                *need,
            ),
            Error::NotAuthorized => String::from_str("Not authorized"),
            Error::DuplicateSlash => String::from_str("Duplicate slash"),
            Error::NoChangeDetected => String::from_str("No change detected"),
            Error::PenaltyExceedsMax => String::from_str("Penalty exceeds max"),
            Error::AlreadyProposed => String::from_str("Already proposed"),
            Error::TimelockNotMet => String::from_str("Timelock not met"),
            Error::AlreadyExecuted => String::from_str("Already executed"),
            Error::NotProposer => String::from_str("Not proposer"),
            Error::EmptyReason => String::from_str("Empty reason"),
            Error::DecayAlreadyApplied(epoch) => {
                let mut s = String::from_str("Decay already applied for epoch ");
                let e = decimal_string(*epoch);
                s.append(e.as_str());
                s
            },
        }
    }
}

} // verus!
