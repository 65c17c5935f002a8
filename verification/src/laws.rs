use vstd::prelude::*;
use crate::error::ErrorCode;
use crate::model::{winner_for, Call, PresentedTicket};
use crate::state::LotteryState;
use crate::ticket::{strip_padding, ticket_name};

verus! {

/// A prefix of a run, cut after its last call, is the run without that call.
proof fn lemma_take_all_but_last<A>(s: Seq<A>, i: int)
    requires
        0 <= i < s.len(),
    ensures
        s.drop_last().take(i) == s.take(i),
        i < s.len() - 1 ==> s.drop_last()[i] == s[i],
        s.take(s.len() - 1) == s.drop_last(),
{
    assert(s.drop_last().take(i) =~= s.take(i));
    assert(s.take(s.len() - 1) =~= s.drop_last());
}

/// The winner is one of the tickets sold: for every revealed value and
/// every positive number of tickets, the index lies below that number.
pub proof fn law_winner_in_range(revealed: nat, ticket_count: nat)
    requires
        ticket_count > 0,
    ensures
        0 <= winner_for(revealed, ticket_count) < ticket_count,
{
}

/// A purchase is refused as not open at every slot before the window and
/// after it, and succeeds at every slot of the window, its first and its
/// last included.
pub proof fn law_window_enforcement(lottery: LotteryState, slot: nat)
    ensures
        slot < lottery.sale_start || slot > lottery.sale_end ==> lottery.purchase(slot) == Err::<
            LotteryState,
            ErrorCode,
        >(ErrorCode::LotteryNotOpen),
        lottery.sale_start <= slot <= lottery.sale_end ==> lottery.purchase(slot) is Ok,
        lottery.sale_start <= lottery.sale_end ==> lottery.purchase(lottery.sale_start) is Ok
            && lottery.purchase(lottery.sale_end) is Ok,
{
}

/// One call keeps what holds of every lottery, and never takes back what
/// was fixed: the configuration stays, no ticket is unsold, and a winner
/// once selected is the winner for good.
pub proof fn law_call_keeps_invariant(lottery: LotteryState, call: Call)
    requires
        lottery.inv(),
        lottery.permits(call),
    ensures
        lottery.next(call).inv(),
        lottery.next(call).id == lottery.id,
        lottery.next(call).sale_start == lottery.sale_start,
        lottery.next(call).sale_end == lottery.sale_end,
        lottery.next(call).ticket_price == lottery.ticket_price,
        lottery.next(call).authority == lottery.authority,
        lottery.next(call).ticket_count >= lottery.ticket_count,
        lottery.winner_selected ==> lottery.next(call).winner_selected && lottery.next(
            call,
        ).winner_index == lottery.winner_index,
        lottery.step(call) is Err ==> lottery.next(call) == lottery,
{
    if call is ChooseWinner && lottery.step(call) is Ok {
        law_winner_in_range(call->revealed->0, lottery.ticket_count);
    }
}

/// Every run of calls keeps what holds of every lottery, at each of its
/// states: the configuration stays, no ticket is unsold, a randomness
/// request is bound before a winner is selected, the winner is one of the
/// tickets sold, and a winner once selected never changes.
pub proof fn law_run_keeps_invariant(lottery: LotteryState, calls: Seq<Call>)
    requires
        lottery.inv(),
        lottery.permits_all(calls),
    ensures
        lottery.after(calls).inv(),
        lottery.after(calls).id == lottery.id,
        lottery.after(calls).sale_start == lottery.sale_start,
        lottery.after(calls).sale_end == lottery.sale_end,
        lottery.after(calls).ticket_price == lottery.ticket_price,
        lottery.after(calls).authority == lottery.authority,
        lottery.after(calls).ticket_count >= lottery.ticket_count,
        lottery.winner_selected ==> lottery.after(calls).winner_selected && lottery.after(
            calls,
        ).winner_index == lottery.winner_index,
    decreases calls.len(),
{
    if calls.len() > 0 {
        let earlier = calls.drop_last();
        assert forall|i: int| 0 <= i < earlier.len() implies #[trigger] lottery.after(
            earlier.take(i),
        ).permits(earlier[i]) by {
            lemma_take_all_but_last(calls, i);
            assert(lottery.after(calls.take(i)).permits(calls[i]));
        }
        law_run_keeps_invariant(lottery, earlier);
        lemma_take_all_but_last(calls, calls.len() - 1);
        assert(lottery.after(calls.take(calls.len() - 1)).permits(calls[calls.len() - 1]));
        law_call_keeps_invariant(lottery.after(earlier), calls.last());
    }
}

/// Tickets are numbered in the order of their sale, without gap or repeat:
/// the tickets that a run issues carry the numbers that follow the tickets
/// sold before it, one after the other, and the count of tickets sold grows
/// by exactly the number of tickets issued.
pub proof fn law_tickets_numbered_in_order(lottery: LotteryState, calls: Seq<Call>)
    ensures
        lottery.after(calls).ticket_count == lottery.ticket_count + lottery.issued(calls).len(),
        forall|i: int|
            0 <= i < lottery.issued(calls).len() ==> #[trigger] lottery.issued(calls)[i]
                == lottery.ticket_count + i,
        lottery.issued(calls).no_duplicates(),
    decreases calls.len(),
{
    if calls.len() > 0 {
        law_tickets_numbered_in_order(lottery, calls.drop_last());
    }
}

/// Whether every call of a run is a purchase at a slot of the sale window.
pub open spec fn all_purchases_in_window(lottery: LotteryState, calls: Seq<Call>) -> bool {
    forall|i: int|
        0 <= i < calls.len() ==> (#[trigger] calls[i] matches Call::BuyTicket { slot }
            && lottery.is_open(slot))
}

/// After N purchases inside the sale window, a lottery that had sold
/// nothing has sold N tickets, and the numbers issued are 0, 1, ..., N-1,
/// each exactly once.
pub proof fn law_purchase_monotonicity(lottery: LotteryState, calls: Seq<Call>)
    requires
        lottery.ticket_count == 0,
        all_purchases_in_window(lottery, calls),
    ensures
        lottery.after(calls).ticket_count == calls.len(),
        lottery.issued(calls) == Seq::new(calls.len(), |i: int| i as nat),
        lottery.issued(calls).no_duplicates(),
        lottery.issued(calls).to_set() == Set::new(|n: nat| n < calls.len()),
{
    lemma_purchases_all_succeed(lottery, calls);
    law_tickets_numbered_in_order(lottery, calls);
    let issued = lottery.issued(calls);
    assert(issued =~= Seq::new(calls.len(), |i: int| i as nat));
    assert forall|n: nat| issued.to_set().contains(n) <==> n < calls.len() by {
        if n < calls.len() {
            assert(issued[n as int] == n);
        }
    }
    assert(issued.to_set() =~= Set::new(|n: nat| n < calls.len()));
}

/// In a run of purchases inside the window every call issues a ticket, and
/// the window stays as it was.
proof fn lemma_purchases_all_succeed(lottery: LotteryState, calls: Seq<Call>)
    requires
        all_purchases_in_window(lottery, calls),
    ensures
        lottery.issued(calls).len() == calls.len(),
        lottery.after(calls).sale_start == lottery.sale_start,
        lottery.after(calls).sale_end == lottery.sale_end,
    decreases calls.len(),
{
    if calls.len() > 0 {
        let earlier = calls.drop_last();
        assert forall|i: int| 0 <= i < earlier.len() implies (#[trigger] earlier[i] matches Call::BuyTicket {
            slot,
        } && lottery.is_open(slot)) by {
            assert(earlier[i] == calls[i]);
        }
        lemma_purchases_all_succeed(lottery, earlier);
        assert(calls.last() == calls[calls.len() - 1]);
    }
}

/// The pool holds what the tickets brought in, less what was paid out: for
/// a lottery whose pool matched its sales, after every run of calls the pool
/// and the payouts together are the price times the tickets sold.
pub proof fn law_pool_accounts_for_sales(lottery: LotteryState, calls: Seq<Call>)
    requires
        lottery.pool_amount == lottery.ticket_price * lottery.ticket_count,
    ensures
        lottery.after(calls).ticket_price == lottery.ticket_price,
        lottery.after(calls).pool_amount + lottery.paid_out(calls) == lottery.ticket_price
            * lottery.after(calls).ticket_count,
    decreases calls.len(),
{
    if calls.len() > 0 {
        let earlier = calls.drop_last();
        law_pool_accounts_for_sales(lottery, earlier);
        let before = lottery.after(earlier);
        let price = lottery.ticket_price;
        assert(price * (before.ticket_count + 1) == price * before.ticket_count + price)
            by (nonlinear_arith);
    }
}

/// Before settlement the pool is the price times the number of tickets
/// sold: this holds of a lottery that has sold nothing, and after every run
/// of calls in which no claim succeeds. A claim that succeeds leaves the
/// pool empty.
pub proof fn law_pool_conservation(lottery: LotteryState, calls: Seq<Call>, ticket: PresentedTicket)
    requires
        lottery.ticket_count == 0,
        lottery.pool_amount == 0,
        lottery.unsettled(calls),
    ensures
        lottery.after(calls).pool_amount == lottery.ticket_price * lottery.after(
            calls,
        ).ticket_count,
        lottery.after(calls).claim(ticket) matches Ok(settled) ==> settled.pool_amount == 0,
{
    assert(lottery.ticket_price * 0 == 0) by (nonlinear_arith);
    law_pool_accounts_for_sales(lottery, calls);
    lemma_unsettled_pays_nothing(lottery, calls);
}

/// A run in which no claim succeeds pays nothing out.
proof fn lemma_unsettled_pays_nothing(lottery: LotteryState, calls: Seq<Call>)
    requires
        lottery.unsettled(calls),
    ensures
        lottery.paid_out(calls) == 0,
    decreases calls.len(),
{
    if calls.len() > 0 {
        let earlier = calls.drop_last();
        assert forall|i: int| 0 <= i < earlier.len() && earlier[i] is ClaimPrize implies #[trigger] lottery.after(
            earlier.take(i),
        ).step(earlier[i]) is Err by {
            lemma_take_all_but_last(calls, i);
            assert(lottery.after(calls.take(i)).step(calls[i]) is Err);
        }
        lemma_unsettled_pays_nothing(lottery, earlier);
        lemma_take_all_but_last(calls, calls.len() - 1);
        if calls.last() is ClaimPrize {
            assert(lottery.after(calls.take(calls.len() - 1)).step(calls[calls.len() - 1]) is Err);
        }
    }
}

/// A winner is selected once: after a selection that succeeded, every
/// further selection is refused and changes nothing, whatever the oracle
/// reveals. Asked by the authority with the bound request once the sale is
/// over, it is refused because the winner is chosen.
pub proof fn law_single_selection(
    lottery: LotteryState,
    caller: Seq<u8>,
    request: Seq<u8>,
    slot: nat,
    revealed: Option<nat>,
    later_caller: Seq<u8>,
    later_request: Seq<u8>,
    later_slot: nat,
    later_revealed: Option<nat>,
)
    requires
        lottery.select(caller, request, slot, revealed) is Ok,
    ensures
        ({
            let selected = lottery.select(caller, request, slot, revealed)->Ok_0;
            let again = selected.select(later_caller, later_request, later_slot, later_revealed);
            &&& again is Err
            &&& later_request == request && later_caller == lottery.authority && later_slot
                >= lottery.sale_end ==> again == Err::<LotteryState, ErrorCode>(
                ErrorCode::WinnerChosen,
            )
            &&& selected.next(
                Call::ChooseWinner {
                    caller: later_caller,
                    request: later_request,
                    slot: later_slot,
                    revealed: later_revealed,
                },
            ) == selected
        }),
{
}

/// A claim succeeds for one asset only: the verified member of the
/// lottery's collection that carries the name of the winning ticket and is
/// in the claimant's hands. Every other verified member of the collection is
/// refused as incorrect, and an asset with no verified collection as not
/// verified.
pub proof fn law_claim_correctness(lottery: LotteryState, ticket: PresentedTicket)
    requires
        lottery.inv(),
    ensures
        lottery.claim(ticket) is Ok <==> {
            &&& lottery.winner_index matches Some(winner)
            &&& strip_padding(ticket.name) == ticket_name(winner)
            &&& ticket.membership matches Some(m)
            &&& m.verified
            &&& m.collection == ticket.lottery_collection
            &&& ticket.balance > 0
        },
        lottery.winner_selected && lottery.claim(ticket) is Err ==> {
            if ticket.membership matches Some(m) && m.verified {
                lottery.claim(ticket) == Err::<LotteryState, ErrorCode>(ErrorCode::IncorrectTicket)
            } else {
                lottery.claim(ticket) == Err::<LotteryState, ErrorCode>(
                    ErrorCode::NotVerifiedTicket,
                )
            }
        },
        !lottery.winner_selected ==> lottery.claim(ticket) == Err::<LotteryState, ErrorCode>(
            ErrorCode::WinnerNotChosen,
        ),
{
}

} // verus!
