use vstd::prelude::*;
use crate::key::Key;

verus! {

/// One lottery, as it is kept on record.
///
/// The record is the concrete form of a [`LotteryState`], which is its view.
#[derive(Clone, Copy, Debug, PartialEq, Eq)]
pub struct TokenLottery {
    /// Identifier of the lottery.
    pub id: u64,
    /// Bump of the address under which the record is kept.
    pub bump: u8,
    /// Index of the winning ticket; it means something only once
    /// `is_winner_chosen` is set.
    pub winner: u64,
    /// Whether a winner has been selected.
    pub is_winner_chosen: bool,
    /// First slot of the sale window.
    pub lottery_start: u64,
    /// Last slot of the sale window.
    pub lottery_end: u64,
    /// Price of one ticket.
    pub price: u64,
    /// Number of tickets sold.
    pub number_of_tickets: u64,
    /// Funds collected and not yet paid out.
    pub lottery_pot_amount: u64,
    /// Who may bind randomness and trigger the selection.
    pub authority: Key,
    /// The randomness request that the lottery is bound to, once there is one.
    pub randomness_account: Option<Key>,
}

/// A lottery as the rules speak of it.
pub struct LotteryState {
    pub id: u64,
    pub sale_start: nat,
    pub sale_end: nat,
    pub ticket_price: nat,
    pub ticket_count: nat,
    pub pool_amount: nat,
    pub authority: Seq<u8>,
    pub randomness_binding: Option<Seq<u8>>,
    pub winner_index: Option<nat>,
    pub winner_selected: bool,
}

impl View for TokenLottery {
    type V = LotteryState;

    open spec fn view(&self) -> LotteryState {
        LotteryState {
            id: self.id,
            sale_start: self.lottery_start as nat,
            sale_end: self.lottery_end as nat,
            ticket_price: self.price as nat,
            ticket_count: self.number_of_tickets as nat,
            pool_amount: self.lottery_pot_amount as nat,
            authority: self.authority@,
            randomness_binding: match self.randomness_account {
                Some(key) => Some(key@),
                None => None,
            },
            winner_index: if self.is_winner_chosen {
                Some(self.winner as nat)
            } else {
                None
            },
            winner_selected: self.is_winner_chosen,
        }
    }
}

impl LotteryState {
    /// What holds of a lottery at every moment of its life: the sale window
    /// is not empty, a ticket has a price, and a selected winner is one of
    /// the tickets sold and was drawn from a bound randomness request.
    pub open spec fn inv(self) -> bool {
        &&& self.sale_start < self.sale_end
        &&& self.ticket_price > 0
        &&& self.winner_selected <==> self.winner_index is Some
        &&& self.winner_index matches Some(index) ==> index < self.ticket_count
        &&& self.winner_selected ==> self.randomness_binding is Some
    }

    /// Whether tickets are on sale at `slot`: the window includes both ends.
    pub open spec fn is_open(self, slot: nat) -> bool {
        self.sale_start <= slot <= self.sale_end
    }

    /// A lottery that has just been set up: nothing sold, nothing collected,
    /// no randomness bound, no winner.
    pub open spec fn is_fresh(self) -> bool {
        &&& self.ticket_count == 0
        &&& self.pool_amount == 0
        &&& self.randomness_binding is None
        &&& self.winner_index is None
        &&& !self.winner_selected
    }
}

impl TokenLottery {
    /// Whether the record satisfies [`LotteryState::inv`].
    pub fn is_valid(&self) -> (valid: bool)
        ensures
            valid == self@.inv(),
    {
        self.lottery_start < self.lottery_end && self.price > 0 && (!self.is_winner_chosen || (
        self.winner < self.number_of_tickets && self.randomness_account.is_some()))
    }
}

} // verus!
