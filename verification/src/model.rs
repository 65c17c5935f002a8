use vstd::prelude::*;
use crate::error::ErrorCode;
use crate::state::LotteryState;
use crate::ticket::{strip_padding, ticket_name};

verus! {

/// What the asset registry says of the collection that an asset belongs to.
pub struct Membership {
    /// Whether the registry has verified that the asset belongs to it.
    pub verified: bool,
    /// Address of the collection.
    pub collection: Seq<u8>,
}

/// The asset that a claimant presents, with what the registry says of it.
pub struct PresentedTicket {
    /// The name recorded for the asset, padding included.
    pub name: Seq<char>,
    /// The collection of the asset, if it has one.
    pub membership: Option<Membership>,
    /// How much of the asset the claimant holds.
    pub balance: nat,
    /// Address of the collection of the lottery that is asked to pay.
    pub lottery_collection: Seq<u8>,
}

/// One call of an operation on a lottery, with the facts that the clock, the
/// oracle and the registry supplied for it.
pub enum Call {
    BuyTicket { slot: nat },
    CommitWinner { caller: Seq<u8>, request: Seq<u8>, commitment_slot: nat, slot: nat },
    ChooseWinner { caller: Seq<u8>, request: Seq<u8>, slot: nat, revealed: Option<nat> },
    ClaimPrize { ticket: PresentedTicket },
}

/// Index of the winning ticket for a revealed value.
pub open spec fn winner_for(revealed: nat, ticket_count: nat) -> nat
    recommends
        ticket_count > 0,
{
    revealed % ticket_count
}

impl LotteryState {
    /// The lottery set up by a configuration.
    pub open spec fn configured(
        id: u64,
        start: nat,
        end: nat,
        price: nat,
        authority: Seq<u8>,
    ) -> LotteryState {
        LotteryState {
            id,
            sale_start: start,
            sale_end: end,
            ticket_price: price,
            ticket_count: 0,
            pool_amount: 0,
            authority,
            randomness_binding: None,
            winner_index: None,
            winner_selected: false,
        }
    }

    /// Selling one ticket at `slot`.
    pub open spec fn purchase(self, slot: nat) -> Result<LotteryState, ErrorCode> {
        if !self.is_open(slot) {
            Err(ErrorCode::LotteryNotOpen)
        } else {
            Ok(
                LotteryState {
                    ticket_count: self.ticket_count + 1,
                    pool_amount: self.pool_amount + self.ticket_price,
                    ..self
                },
            )
        }
    }

    /// Binding the lottery to a randomness request that was committed at
    /// `commitment_slot`.
    pub open spec fn bind(
        self,
        caller: Seq<u8>,
        request: Seq<u8>,
        commitment_slot: nat,
        slot: nat,
    ) -> Result<LotteryState, ErrorCode> {
        if caller != self.authority {
            Err(ErrorCode::NotAuthorized)
        } else if commitment_slot + 1 != slot {
            Err(ErrorCode::RandomnessAlreadyRevealed)
        } else {
            Ok(LotteryState { randomness_binding: Some(request), ..self })
        }
    }

    /// Why a selection is refused before the oracle is even asked, if it is.
    pub open spec fn refuses_selection(
        self,
        caller: Seq<u8>,
        request: Seq<u8>,
        slot: nat,
    ) -> Option<ErrorCode> {
        if self.randomness_binding != Some(request) {
            Some(ErrorCode::IncorrectRandomnessAccount)
        } else if caller != self.authority {
            Some(ErrorCode::NotAuthorized)
        } else if slot < self.sale_end {
            Some(ErrorCode::LotteryNotOpen)
        } else if self.winner_selected {
            Some(ErrorCode::WinnerChosen)
        } else {
            None
        }
    }

    /// Selecting the winner from what the oracle revealed, if it revealed
    /// anything: the revealed value modulo the number of tickets sold.
    pub open spec fn select(
        self,
        caller: Seq<u8>,
        request: Seq<u8>,
        slot: nat,
        revealed: Option<nat>,
    ) -> Result<LotteryState, ErrorCode>
        recommends
            self.ticket_count > 0,
    {
        match self.refuses_selection(caller, request, slot) {
            Some(e) => Err(e),
            None => match revealed {
                None => Err(ErrorCode::RandomnessNotResolved),
                Some(value) => Ok(
                    LotteryState {
                        winner_index: Some(winner_for(value, self.ticket_count)),
                        winner_selected: true,
                        ..self
                    },
                ),
            },
        }
    }

    /// Whether a presented asset is the winning ticket in the claimant's
    /// hands, and if not, what is wrong with it.
    pub open spec fn check_claim(self, ticket: PresentedTicket) -> Result<(), ErrorCode> {
        if !self.winner_selected {
            Err(ErrorCode::WinnerNotChosen)
        } else if !(ticket.membership matches Some(m) && m.verified) {
            Err(ErrorCode::NotVerifiedTicket)
        } else if ticket.membership->0.collection != ticket.lottery_collection {
            Err(ErrorCode::IncorrectTicket)
        } else if strip_padding(ticket.name) != ticket_name(self.winner_index->0) {
            Err(ErrorCode::IncorrectTicket)
        } else if ticket.balance == 0 {
            Err(ErrorCode::IncorrectTicket)
        } else {
            Ok(())
        }
    }

    /// Paying the pool out against a presented asset.
    pub open spec fn claim(self, ticket: PresentedTicket) -> Result<LotteryState, ErrorCode> {
        match self.check_claim(ticket) {
            Err(e) => Err(e),
            Ok(_) => Ok(LotteryState { pool_amount: 0, ..self }),
        }
    }

    /// The outcome of one call.
    pub open spec fn step(self, call: Call) -> Result<LotteryState, ErrorCode> {
        match call {
            Call::BuyTicket { slot } => self.purchase(slot),
            Call::CommitWinner { caller, request, commitment_slot, slot } => self.bind(
                caller,
                request,
                commitment_slot,
                slot,
            ),
            Call::ChooseWinner { caller, request, slot, revealed } => self.select(
                caller,
                request,
                slot,
                revealed,
            ),
            Call::ClaimPrize { ticket } => self.claim(ticket),
        }
    }

    /// The lottery after one call: a refused call leaves it as it was.
    pub open spec fn next(self, call: Call) -> LotteryState {
        match self.step(call) {
            Ok(state) => state,
            Err(_) => self,
        }
    }

    /// The lottery after a run of calls, made one after the other.
    pub open spec fn after(self, calls: Seq<Call>) -> LotteryState
        decreases calls.len(),
    {
        if calls.len() == 0 {
            self
        } else {
            self.after(calls.drop_last()).next(calls.last())
        }
    }

    /// The sequence numbers of the tickets that a run of calls issues, in the
    /// order of their sale.
    pub open spec fn issued(self, calls: Seq<Call>) -> Seq<nat>
        decreases calls.len(),
    {
        if calls.len() == 0 {
            Seq::empty()
        } else {
            let before = self.after(calls.drop_last());
            let earlier = self.issued(calls.drop_last());
            if calls.last() is BuyTicket && before.step(calls.last()) is Ok {
                earlier.push(before.ticket_count)
            } else {
                earlier
            }
        }
    }

    /// What a run of calls pays out to claimants in all.
    pub open spec fn paid_out(self, calls: Seq<Call>) -> nat
        decreases calls.len(),
    {
        if calls.len() == 0 {
            0
        } else {
            let before = self.after(calls.drop_last());
            let earlier = self.paid_out(calls.drop_last());
            if calls.last() is ClaimPrize && before.step(calls.last()) is Ok {
                earlier + before.pool_amount
            } else {
                earlier
            }
        }
    }

    /// Whether no claim of a run succeeds.
    pub open spec fn unsettled(self, calls: Seq<Call>) -> bool {
        forall|i: int|
            0 <= i < calls.len() && calls[i] is ClaimPrize ==> #[trigger] self.after(
                calls.take(i),
            ).step(calls[i]) is Err
    }

    /// Whether a call may be made at all: a winner can only be asked for
    /// once a ticket has been sold.
    pub open spec fn permits(self, call: Call) -> bool {
        call is ChooseWinner ==> self.ticket_count > 0
    }

    /// Whether every call of a run may be made when its turn comes.
    pub open spec fn permits_all(self, calls: Seq<Call>) -> bool {
        forall|i: int| 0 <= i < calls.len() ==> #[trigger] self.after(calls.take(i)).permits(calls[i])
    }
}

} // verus!
