use vstd::prelude::*;

verus! {

/// Every way an operation on a vault or a lottery can be refused.
#[derive(Debug, Clone, Copy, PartialEq, Eq, Structural)]
pub enum SPError {
    InvalidAuthority,
    InvalidWithdrawer,
    InvalidName,
    InvalidMaxTickets,
    InvalidTicketPrice,
    InvalidStartAndEndTime,
    InvalidFee,
    InvalidWithdrawAmount,
    InvalidWinner,
    LotteryAlreadyStarted,
    LotteryNotStarted,
    LotteryAlreadyEnded,
    LotteryNotEnded,
    LotteryFull,
    AlreadyParticipated,
    LotteryEnded,
    NotClaimable,
    InsufficientFunds,
    CannotWithdrawRent,
}

/// The human-readable message of `e`.
pub open spec fn message_of(e: SPError) -> Seq<char> {
    match e {
        SPError::InvalidAuthority => "Invalid authority"@,
        SPError::InvalidWithdrawer => "Invalid withdrawer"@,
        SPError::InvalidName => "Invalid name"@,
        SPError::InvalidMaxTickets => "Invalid max tickets"@,
        SPError::InvalidTicketPrice => "Invalid ticket price"@,
        SPError::InvalidStartAndEndTime => "Invalid start and end time"@,
        SPError::InvalidFee => "Invalid fee"@,
        SPError::InvalidWithdrawAmount => "Invalid withdraw amount"@,
        SPError::InvalidWinner => "Invalid winner"@,
        SPError::LotteryAlreadyStarted => "Lottery already started"@,
        SPError::LotteryNotStarted => "Lottery not started"@,
        SPError::LotteryAlreadyEnded => "Lottery already ended"@,
        SPError::LotteryNotEnded => "Lottery not ended"@,
        SPError::LotteryFull => "Lottery full"@,
        SPError::AlreadyParticipated => "Already participated"@,
        SPError::LotteryEnded => "Lottery ended"@,
        SPError::NotClaimable => "Not claimable"@,
        SPError::InsufficientFunds => "Insufficient funds"@,
        SPError::CannotWithdrawRent => "Cannot withdraw rent"@,
    }
}

impl SPError {
    /// The human-readable message of this error.
    pub fn message(&self) -> (r: String)
        ensures
            r@ == message_of(*self),
    {
        match self {
            SPError::InvalidAuthority => String::from_str("Invalid authority"),
            SPError::InvalidWithdrawer => String::from_str("Invalid withdrawer"),
            SPError::InvalidName => String::from_str("Invalid name"),
            SPError::InvalidMaxTickets => String::from_str("Invalid max tickets"),
            SPError::InvalidTicketPrice => String::from_str("Invalid ticket price"),
            SPError::InvalidStartAndEndTime => String::from_str("Invalid start and end time"),
            SPError::InvalidFee => String::from_str("Invalid fee"),
            SPError::InvalidWithdrawAmount => String::from_str("Invalid withdraw amount"),
            SPError::InvalidWinner => String::from_str("Invalid winner"),
            SPError::LotteryAlreadyStarted => String::from_str("Lottery already started"),
            SPError::LotteryNotStarted => String::from_str("Lottery not started"),
            SPError::LotteryAlreadyEnded => String::from_str("Lottery already ended"),
            SPError::LotteryNotEnded => String::from_str("Lottery not ended"),
            SPError::LotteryFull => String::from_str("Lottery full"),
            SPError::AlreadyParticipated => String::from_str("Already participated"),
            SPError::LotteryEnded => String::from_str("Lottery ended"),
            SPError::NotClaimable => String::from_str("Not claimable"),
            SPError::InsufficientFunds => String::from_str("Insufficient funds"),
            SPError::CannotWithdrawRent => String::from_str("Cannot withdraw rent"),
        }
    }
}

} // verus!
