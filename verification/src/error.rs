use vstd::prelude::*;

verus! {

/// Why an operation on a lottery was refused.
///
/// A refused operation leaves the lottery exactly as it was.
#[derive(Clone, Copy, Debug, PartialEq, Eq, Structural)]
pub enum ErrorCode {
    /// The slot is outside the sale window (for a purchase) or before its end
    /// (for a selection).
    LotteryNotOpen,
    /// The caller is not the authority of the lottery.
    NotAuthorized,
    /// The randomness request was not committed at the slot just before this one.
    RandomnessAlreadyRevealed,
    /// The randomness account is not the one the lottery is bound to, or it
    /// does not hold a randomness request at all.
    IncorrectRandomnessAccount,
    /// A winner has been selected already.
    WinnerChosen,
    /// The oracle has not revealed a value for this slot.
    RandomnessNotResolved,
    /// No winner has been selected yet.
    WinnerNotChosen,
    /// The ticket is not a verified member of a collection.
    NotVerifiedTicket,
    /// The ticket is not the winning ticket of this lottery, or the claimant
    /// does not hold it.
    IncorrectTicket,
    /// A lottery with this identifier exists already.
    AlreadyInitialized,
    /// The sale window does not start before it ends.
    InvalidWindow,
}

impl ErrorCode {
    /// The message of each error, as a sequence of characters.
    pub open spec fn message_text(self) -> Seq<char> {
        match self {
            ErrorCode::LotteryNotOpen => "Lottery is not open"@,
            ErrorCode::NotAuthorized => "Not authorized"@,
            ErrorCode::RandomnessAlreadyRevealed => "Randomness already revealed"@,
            ErrorCode::IncorrectRandomnessAccount => "Incorrect randomness account"@,
            ErrorCode::WinnerChosen => "Winner already chosen"@,
            ErrorCode::RandomnessNotResolved => "Randomness not resolved"@,
            ErrorCode::WinnerNotChosen => "Winner not chosen"@,
            ErrorCode::NotVerifiedTicket => "Not verified ticket"@,
            ErrorCode::IncorrectTicket => "Incorrect ticket"@,
            ErrorCode::AlreadyInitialized => "Lottery already initialized"@,
            ErrorCode::InvalidWindow => "Invalid sale window"@,
        }
    }

    /// The message shown for this error.
    pub fn message(&self) -> (text: &'static str)
        ensures
            text@ == self.message_text(),
    {
        match self {
            ErrorCode::LotteryNotOpen => "Lottery is not open",
            ErrorCode::NotAuthorized => "Not authorized",
            ErrorCode::RandomnessAlreadyRevealed => "Randomness already revealed",
            ErrorCode::IncorrectRandomnessAccount => "Incorrect randomness account",
            ErrorCode::WinnerChosen => "Winner already chosen",
            ErrorCode::RandomnessNotResolved => "Randomness not resolved",
            ErrorCode::WinnerNotChosen => "Winner not chosen",
            ErrorCode::NotVerifiedTicket => "Not verified ticket",
            ErrorCode::IncorrectTicket => "Incorrect ticket",
            ErrorCode::AlreadyInitialized => "Lottery already initialized",
            ErrorCode::InvalidWindow => "Invalid sale window",
        }
    }
}

} // verus!
