use vstd::prelude::*;

verus! {

/// The ways an instruction of the lottery is refused.
#[derive(Debug, Clone, Copy, PartialEq, Eq, Structural)]
pub enum ContractError {
    NotOwner,
    InvalidAddress,
    LotteryNotStarted,
    LotteryEnded,
    AlreadyParticipated,
    LotteryNotEnded,
    LotteryNotFound,
    LotteryAlreadyEnded,
    LotteryAlreadyFulled,
    InvalidMintAuthority,
    ReferralLinkAlreadyExist,
    ReferralLinkMisMatched,
    NotEnoughParticipants,
    InvalidUserAccount,
    StillInProgress,
}

/// The text shown for each error.
pub open spec fn error_message(e: ContractError) -> Seq<char> {
    match e {
        ContractError::NotOwner => "Invalid Owner"@,
        ContractError::InvalidAddress => "Invalid address."@,
        ContractError::LotteryNotStarted => "Lottery not started"@,
        ContractError::LotteryEnded => "Lottery ended"@,
        ContractError::AlreadyParticipated => "Already participated"@,
        ContractError::LotteryNotEnded => "Lottery not ended"@,
        ContractError::LotteryNotFound => "Lottery not founded"@,
        ContractError::LotteryAlreadyEnded => "Lottery already ended"@,
        ContractError::LotteryAlreadyFulled => "There is no spot"@,
        ContractError::InvalidMintAuthority => "Invalid Mint Authority"@,
        ContractError::ReferralLinkAlreadyExist => "Referral Link Already Exist"@,
        ContractError::ReferralLinkMisMatched => "Referral Link MisMatched"@,
        ContractError::NotEnoughParticipants => "Not Enough Participants"@,
        ContractError::InvalidUserAccount => "Invalid User Account"@,
        ContractError::StillInProgress => "Lottery is in progress"@,
    }
}

impl ContractError {
    /// The text shown for this error.
    pub fn message(&self) -> (m: &'static str)
        ensures
            m@ == error_message(*self),
    {
        match self {
            ContractError::NotOwner => "Invalid Owner",
            ContractError::InvalidAddress => "Invalid address.",
            ContractError::LotteryNotStarted => "Lottery not started",
            ContractError::LotteryEnded => "Lottery ended",
            ContractError::AlreadyParticipated => "Already participated",
            ContractError::LotteryNotEnded => "Lottery not ended",
            ContractError::LotteryNotFound => "Lottery not founded",
            ContractError::LotteryAlreadyEnded => "Lottery already ended",
            ContractError::LotteryAlreadyFulled => "There is no spot",
            ContractError::InvalidMintAuthority => "Invalid Mint Authority",
            ContractError::ReferralLinkAlreadyExist => "Referral Link Already Exist",
            ContractError::ReferralLinkMisMatched => "Referral Link MisMatched",
            ContractError::NotEnoughParticipants => "Not Enough Participants",
            ContractError::InvalidUserAccount => "Invalid User Account",
            ContractError::StillInProgress => "Lottery is in progress",
        }
    }
}

} // verus!
