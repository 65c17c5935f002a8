use vstd::prelude::*;
use crate::error::ErrorCode;
use crate::key::Key;
use crate::model::{winner_for, Membership, PresentedTicket};
use crate::oracle::{has_randomness_layout, parse_randomness, reveal_value};
use crate::registry::{
    collection_request, collection_request_of, ticket_request, ticket_request_of, MintRequest,
    MintRequestView,
};
use crate::state::{LotteryState, TokenLottery};
use crate::ticket::{is_ticket_name, strip_padding, ticket_name};

verus! {

/// What a purchase is made with.
#[derive(Clone, Copy, Debug, PartialEq, Eq)]
pub struct BuyTicket {
    /// Who buys, pays and will own the ticket.
    pub payer: Key,
    /// Address of the lottery's collection.
    pub collection_mint: Key,
    /// Bump of the collection's address.
    pub collection_mint_bump: u8,
    /// The slot that the clock shows.
    pub slot: u64,
}

/// What remains to be done outside for a ticket that was sold: collect the
/// payment from the buyer into the lottery's account, and have the ticket
/// minted to the buyer as a member of the collection.
#[derive(Clone, Debug, PartialEq, Eq)]
pub struct TicketOrder {
    /// Number of the ticket: tickets are numbered from zero in the order of
    /// their sale.
    pub sequence_number: u64,
    pub buyer: Key,
    /// What the buyer pays.
    pub payment: u64,
    pub mint: MintRequest,
}

/// A [`TicketOrder`] with its strings and seeds as sequences.
pub struct TicketOrderView {
    pub sequence_number: nat,
    pub buyer: Seq<u8>,
    pub payment: nat,
    pub mint: MintRequestView,
}

impl View for TicketOrder {
    type V = TicketOrderView;

    open spec fn view(&self) -> TicketOrderView {
        TicketOrderView {
            sequence_number: self.sequence_number as nat,
            buyer: self.buyer@,
            payment: self.payment as nat,
            mint: self.mint@,
        }
    }
}

/// The order for the next ticket of a lottery.
pub open spec fn ticket_order(lottery: LotteryState, ctx: BuyTicket) -> TicketOrderView {
    TicketOrderView {
        sequence_number: lottery.ticket_count,
        buyer: ctx.payer@,
        payment: lottery.ticket_price,
        mint: ticket_request(
            ctx.payer@,
            lottery.id,
            ctx.collection_mint_bump,
            ctx.collection_mint@,
            lottery.ticket_count,
        ),
    }
}

/// Sells one ticket.
///
/// Inside the sale window, both ends included, the ticket gets the next
/// sequence number, the pool grows by the price, and the order says what is
/// to be collected and minted. Outside the window nothing is sold.
pub fn buy_ticket(lottery: &mut TokenLottery, ctx: &BuyTicket) -> (r: Result<
    TicketOrder,
    ErrorCode,
>)
    requires
        old(lottery)@.is_open(ctx.slot as nat) ==> old(lottery).number_of_tickets < u64::MAX
            && old(lottery).lottery_pot_amount + old(lottery).price <= u64::MAX,
    ensures
        r is Ok <==> old(lottery)@.is_open(ctx.slot as nat),
        r matches Err(e) ==> e == ErrorCode::LotteryNotOpen && *final(lottery) == *old(lottery),
        r matches Ok(order) ==> order@ == ticket_order(old(lottery)@, *ctx) && *final(lottery) == (
        TokenLottery {
            number_of_tickets: (old(lottery).number_of_tickets + 1) as u64,
            lottery_pot_amount: (old(lottery).lottery_pot_amount + old(lottery).price) as u64,
            ..*old(lottery)
        }),
        old(lottery)@.purchase(ctx.slot as nat) == (match r {
            Ok(_) => Ok(final(lottery)@),
            Err(e) => Err(e),
        }),
{
    if ctx.slot < lottery.lottery_start || ctx.slot > lottery.lottery_end {
        return Err(ErrorCode::LotteryNotOpen);
    }
    let order = TicketOrder {
        sequence_number: lottery.number_of_tickets,
        buyer: ctx.payer,
        payment: lottery.price,
        mint: ticket_request_of(
            &ctx.payer,
            lottery.id,
            ctx.collection_mint_bump,
            &ctx.collection_mint,
            lottery.number_of_tickets,
        ),
    };
    lottery.lottery_pot_amount += lottery.price;
    lottery.number_of_tickets += 1;
    Ok(order)
}

/// What the collection of a lottery is set up with.
#[derive(Clone, Copy, Debug, PartialEq, Eq)]
pub struct InitializeLottery {
    /// Who sets the lottery up and pays for it.
    pub payer: Key,
    /// Address of the lottery's collection.
    pub collection_mint: Key,
    /// Bump of the collection's address.
    pub collection_mint_bump: u8,
}

/// Says what the asset registry is asked for to set up the collection under
/// which the tickets of lottery `id` will be verified: the collection is its
/// own creator and signs with its own seeds.
pub fn initialize_lottery(ctx: &InitializeLottery, id: u64) -> (request: MintRequest)
    ensures
        request@ == collection_request(
            ctx.payer@,
            id,
            ctx.collection_mint_bump,
            ctx.collection_mint@,
        ),
{
    collection_request_of(&ctx.payer, id, ctx.collection_mint_bump, &ctx.collection_mint)
}

/// What a selection is asked with.
#[derive(Clone, Debug, PartialEq, Eq)]
pub struct ChooseWinner {
    /// Who asks.
    pub payer: Key,
    /// Address of the randomness account that is presented.
    pub randomness_account: Key,
    /// What the randomness account holds.
    pub randomness_account_data: Vec<u8>,
    /// The slot that the clock shows.
    pub slot: u64,
}

impl TokenLottery {
    /// Whether the lottery is bound to the randomness request `request`.
    pub fn is_bound_to(&self, request: &Key) -> (bound: bool)
        ensures
            bound == (self@.randomness_binding == Some(request@)),
    {
        match self.randomness_account {
            Some(key) => key == *request,
            None => false,
        }
    }

    /// Says whether a selection would be refused before the oracle is asked,
    /// and why: the request must be the bound one, the caller the authority,
    /// the sale over, and no winner selected yet, tested in this order.
    pub fn check_selection(&self, caller: &Key, request: &Key, slot: u64) -> (r: Result<
        (),
        ErrorCode,
    >)
        ensures
            self@.refuses_selection(caller@, request@, slot as nat) == (match r {
                Ok(_) => None,
                Err(e) => Some(e),
            }),
    {
        if !self.is_bound_to(request) {
            Err(ErrorCode::IncorrectRandomnessAccount)
        } else if *caller != self.authority {
            Err(ErrorCode::NotAuthorized)
        } else if slot < self.lottery_end {
            Err(ErrorCode::LotteryNotOpen)
        } else if self.is_winner_chosen {
            Err(ErrorCode::WinnerChosen)
        } else {
            Ok(())
        }
    }

    /// Selects the winner, given what the oracle revealed for this slot
    /// (`None` where it revealed nothing).
    ///
    /// The winner is the revealed value modulo the number of tickets sold,
    /// and once selected it stays. A lottery without a ticket has no winner
    /// to select.
    pub fn select_winner(
        &mut self,
        caller: &Key,
        request: &Key,
        slot: u64,
        revealed: Option<u64>,
    ) -> (r: Result<(), ErrorCode>)
        requires
            old(self).number_of_tickets > 0,
        ensures
            old(self)@.select(
                caller@,
                request@,
                slot as nat,
                match revealed {
                    Some(value) => Some(value as nat),
                    None => None,
                },
            ) == (match r {
                Ok(_) => Ok(final(self)@),
                Err(e) => Err(e),
            }),
            r is Err ==> *final(self) == *old(self),
            r is Ok ==> revealed is Some && *final(self) == (TokenLottery {
                winner: winner_for(
                    revealed->0 as nat,
                    old(self).number_of_tickets as nat,
                ) as u64,
                is_winner_chosen: true,
                ..*old(self)
            }),
            r is Ok ==> final(self).winner < final(self).number_of_tickets,
            old(self)@.inv() ==> final(self)@.inv(),
    {
        match self.check_selection(caller, request, slot) {
            Err(e) => {
                return Err(e);
            },
            Ok(_) => {},
        }
        match revealed {
            None => Err(ErrorCode::RandomnessNotResolved),
            Some(value) => {
                self.winner = value % self.number_of_tickets;
                self.is_winner_chosen = true;
                Ok(())
            },
        }
    }
}

/// Selects the winner of a lottery from the randomness account it is bound
/// to.
///
/// The checks of [`TokenLottery::check_selection`] come first. Then the
/// oracle's crate reads the account and is asked for the value revealed at
/// this slot; the first byte of the value is what
/// [`TokenLottery::select_winner`] draws the winner from. Data that the
/// crate does not read as a randomness account is refused as an incorrect
/// account, and a value that is not revealed at this slot as not resolved.
pub fn choose_a_winner(lottery: &mut TokenLottery, ctx: &ChooseWinner) -> (r: Result<(), ErrorCode>)
    requires
        old(lottery).number_of_tickets > 0,
    ensures
        r is Err ==> *final(lottery) == *old(lottery),
        old(lottery)@.refuses_selection(ctx.payer@, ctx.randomness_account@, ctx.slot as nat)
            matches Some(e) ==> r == Err::<(), ErrorCode>(e),
        old(lottery)@.refuses_selection(ctx.payer@, ctx.randomness_account@, ctx.slot as nat)
            is None ==> {
            &&& !has_randomness_layout(ctx.randomness_account_data@) ==> r == Err::<(), ErrorCode>(
                ErrorCode::IncorrectRandomnessAccount,
            )
            &&& r matches Err(e) ==> e == ErrorCode::IncorrectRandomnessAccount || e
                == ErrorCode::RandomnessNotResolved
        },
        r is Ok ==> has_randomness_layout(ctx.randomness_account_data@),
        r is Ok ==> exists|byte: u8|
            {
                &&& old(lottery)@.select(
                    ctx.payer@,
                    ctx.randomness_account@,
                    ctx.slot as nat,
                    Some(byte as nat),
                ) == Ok::<LotteryState, ErrorCode>(final(lottery)@)
                &&& *final(lottery) == (TokenLottery {
                    winner: #[trigger] winner_for(
                        byte as nat,
                        old(lottery).number_of_tickets as nat,
                    ) as u64,
                    is_winner_chosen: true,
                    ..*old(lottery)
                })
            },
        old(lottery)@.inv() ==> final(lottery)@.inv(),
{
    match lottery.check_selection(&ctx.payer, &ctx.randomness_account, ctx.slot) {
        Err(e) => {
            return Err(e);
        },
        Ok(_) => {},
    }
    let data = match parse_randomness(&ctx.randomness_account_data) {
        Ok(data) => data,
        Err(_) => {
            return Err(ErrorCode::IncorrectRandomnessAccount);
        },
    };
    let revealed = match reveal_value(&data, ctx.slot) {
        Ok(value) => Some(value[0] as u64),
        Err(_) => None,
    };
    lottery.select_winner(&ctx.payer, &ctx.randomness_account, ctx.slot, revealed)
}

/// The collection that the registry records for an asset.
#[derive(Clone, Copy, Debug, PartialEq, Eq)]
pub struct Collection {
    /// Whether the registry has verified that the asset belongs to it.
    pub verified: bool,
    /// Address of the collection.
    pub key: Key,
}

/// What the registry records for an asset, as far as a claim reads it.
#[derive(Clone, Debug, PartialEq, Eq)]
pub struct TicketMetadata {
    /// Name of the asset, with the padding that the registry adds.
    pub name: String,
    /// The collection of the asset, if it has one.
    pub collection: Option<Collection>,
}

/// What a prize is claimed with.
#[derive(Clone, Debug, PartialEq, Eq)]
pub struct ClaimPrize {
    /// Who claims.
    pub payer: Key,
    /// The registry's record of the presented asset.
    pub metadata: TicketMetadata,
    /// How much of the presented asset the claimant holds.
    pub destination_amount: u64,
    /// Address of the lottery's collection.
    pub collection_mint: Key,
}

impl View for ClaimPrize {
    type V = PresentedTicket;

    open spec fn view(&self) -> PresentedTicket {
        PresentedTicket {
            name: self.metadata.name@,
            membership: match self.metadata.collection {
                Some(c) => Some(Membership { verified: c.verified, collection: c.key@ }),
                None => None,
            },
            balance: self.destination_amount as nat,
            lottery_collection: self.collection_mint@,
        }
    }
}

/// Pays the pool out to the holder of the winning ticket.
///
/// The claim succeeds exactly when a winner is selected and the presented
/// asset is a verified member of the lottery's collection, carries the name
/// of the winning ticket once its padding is stripped, and is held by the
/// claimant. The whole pool is then owed to the claimant and the pool is
/// empty; the returned amount is what the ledger has to move. An asset
/// without a verified collection is refused as not verified, every other
/// wrong asset as incorrect.
pub fn claim_prize(lottery: &mut TokenLottery, ctx: &ClaimPrize) -> (r: Result<u64, ErrorCode>)
    ensures
        old(lottery)@.claim(ctx@) == (match r {
            Ok(_) => Ok(final(lottery)@),
            Err(e) => Err(e),
        }),
        r is Ok <==> {
            &&& old(lottery).is_winner_chosen
            &&& ctx.metadata.collection matches Some(c) && c.verified && c.key@
                == ctx.collection_mint@
            &&& strip_padding(ctx.metadata.name@) == ticket_name(old(lottery).winner as nat)
            &&& ctx.destination_amount > 0
        },
        r is Err ==> *final(lottery) == *old(lottery),
        r matches Ok(paid) ==> paid == old(lottery).lottery_pot_amount && *final(lottery) == (
        TokenLottery { lottery_pot_amount: 0, ..*old(lottery) }),
        old(lottery)@.inv() ==> final(lottery)@.inv(),
{
    if !lottery.is_winner_chosen {
        return Err(ErrorCode::WinnerNotChosen);
    }
    let collection = match ctx.metadata.collection {
        Some(collection) => collection,
        None => {
            return Err(ErrorCode::NotVerifiedTicket);
        },
    };
    if !collection.verified {
        return Err(ErrorCode::NotVerifiedTicket);
    }
    if collection.key != ctx.collection_mint {
        return Err(ErrorCode::IncorrectTicket);
    }
    if !is_ticket_name(ctx.metadata.name.as_str(), lottery.winner) {
        return Err(ErrorCode::IncorrectTicket);
    }
    if ctx.destination_amount == 0 {
        return Err(ErrorCode::IncorrectTicket);
    }
    let paid = lottery.lottery_pot_amount;
    lottery.lottery_pot_amount = 0;
    Ok(paid)
}

/// What a randomness request is bound with.
#[derive(Clone, Debug, PartialEq, Eq)]
pub struct CommitWinner {
    /// Who asks.
    pub payer: Key,
    /// Address of the randomness account that is presented.
    pub randomness_account: Key,
    /// What the randomness account holds.
    pub randomness_account_data: Vec<u8>,
    /// The slot that the clock shows.
    pub slot: u64,
}

impl TokenLottery {
    /// Binds the lottery to the randomness request `request`, which the
    /// oracle committed to at `commitment_slot`.
    ///
    /// Only the authority may bind, and only a request that was committed
    /// at the slot just before this one: an older one may be known already,
    /// a newer one cannot exist. A lottery may be bound again.
    pub fn bind_randomness(
        &mut self,
        caller: &Key,
        request: &Key,
        commitment_slot: u64,
        slot: u64,
    ) -> (r: Result<(), ErrorCode>)
        ensures
            old(self)@.bind(caller@, request@, commitment_slot as nat, slot as nat) == (match r {
                Ok(_) => Ok(final(self)@),
                Err(e) => Err(e),
            }),
            r is Ok <==> caller@ == old(self).authority@ && commitment_slot + 1 == slot,
            r is Err ==> *final(self) == *old(self),
            r is Ok ==> *final(self) == (TokenLottery {
                randomness_account: Some(*request),
                ..*old(self)
            }),
            old(self)@.inv() ==> final(self)@.inv(),
    {
        if *caller != self.authority {
            return Err(ErrorCode::NotAuthorized);
        }
        if slot == 0 || commitment_slot != slot - 1 {
            return Err(ErrorCode::RandomnessAlreadyRevealed);
        }
        self.randomness_account = Some(*request);
        Ok(())
    }
}

/// Binds a lottery to the randomness account that is presented.
///
/// The caller must be the authority. Then the oracle's crate reads the
/// account, and the slot of its commitment goes to
/// [`TokenLottery::bind_randomness`]. Data that the crate does not read as a
/// randomness account is refused as an incorrect account.
pub fn commit_a_winner(lottery: &mut TokenLottery, ctx: &CommitWinner) -> (r: Result<(), ErrorCode>)
    ensures
        r is Err ==> *final(lottery) == *old(lottery),
        ctx.payer@ != old(lottery).authority@ ==> r == Err::<(), ErrorCode>(
            ErrorCode::NotAuthorized,
        ),
        ctx.payer@ == old(lottery).authority@ ==> {
            &&& !has_randomness_layout(ctx.randomness_account_data@) ==> r == Err::<(), ErrorCode>(
                ErrorCode::IncorrectRandomnessAccount,
            )
            &&& r matches Err(e) ==> e == ErrorCode::IncorrectRandomnessAccount || e
                == ErrorCode::RandomnessAlreadyRevealed
        },
        r is Ok ==> has_randomness_layout(ctx.randomness_account_data@),
        r is Ok ==> ctx.slot > 0 && old(lottery)@.bind(
            ctx.payer@,
            ctx.randomness_account@,
            (ctx.slot - 1) as nat,
            ctx.slot as nat,
        ) == Ok::<LotteryState, ErrorCode>(final(lottery)@) && *final(lottery) == (TokenLottery {
            randomness_account: Some(ctx.randomness_account),
            ..*old(lottery)
        }),
        old(lottery)@.inv() ==> final(lottery)@.inv(),
{
    if ctx.payer != lottery.authority {
        return Err(ErrorCode::NotAuthorized);
    }
    let data = match parse_randomness(&ctx.randomness_account_data) {
        Ok(data) => data,
        Err(_) => {
            return Err(ErrorCode::IncorrectRandomnessAccount);
        },
    };
    lottery.bind_randomness(&ctx.payer, &ctx.randomness_account, data.seed_slot, ctx.slot)
}

/// What a lottery is configured with.
#[derive(Clone, Copy, Debug, PartialEq, Eq)]
pub struct InitializeConfig {
    /// Who sets the lottery up; they become its authority.
    pub payer: Key,
    /// The lottery on record under the identifier, if there is one.
    pub token_lottery: Option<TokenLottery>,
    /// Bump of the address under which the lottery is kept.
    pub bump: u8,
}

/// Sets up a lottery: window and price as given, the payer as authority,
/// nothing sold, nothing collected, nothing bound, no winner.
///
/// An identifier that is in use is refused, and so is a window that does not
/// start before it ends, in this order. A ticket must have a price.
pub fn initialize_config(ctx: &InitializeConfig, id: u64, start: u64, end: u64, price: u64) -> (r:
    Result<TokenLottery, ErrorCode>)
    requires
        price > 0,
    ensures
        ctx.token_lottery is Some ==> (r matches Err(e) && e == ErrorCode::AlreadyInitialized),
        ctx.token_lottery is None && start >= end ==> (r matches Err(e) && e
            == ErrorCode::InvalidWindow),
        ctx.token_lottery is None && start < end ==> (r matches Ok(lottery) && {
            &&& lottery == (TokenLottery {
                id,
                bump: ctx.bump,
                winner: 0,
                is_winner_chosen: false,
                lottery_start: start,
                lottery_end: end,
                price,
                number_of_tickets: 0,
                lottery_pot_amount: 0,
                authority: ctx.payer,
                randomness_account: None,
            })
            &&& lottery@ == LotteryState::configured(
                id,
                start as nat,
                end as nat,
                price as nat,
                ctx.payer@,
            )
            &&& lottery@.inv()
            &&& lottery@.is_fresh()
        }),
{
    if ctx.token_lottery.is_some() {
        return Err(ErrorCode::AlreadyInitialized);
    }
    if start >= end {
        return Err(ErrorCode::InvalidWindow);
    }
    Ok(
        TokenLottery {
            id,
            bump: ctx.bump,
            winner: 0,
            is_winner_chosen: false,
            lottery_start: start,
            lottery_end: end,
            price,
            number_of_tickets: 0,
            lottery_pot_amount: 0,
            authority: ctx.payer,
            randomness_account: None,
        },
    )
}

} // verus!
