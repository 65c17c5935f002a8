use switchboard_on_demand::{Discriminator, RandomnessAccountData};
use tokenlottery::{
    buy_ticket, choose_a_winner, claim_prize, commit_a_winner, initialize_config, BuyTicket,
    ChooseWinner, ClaimPrize, Collection, CommitWinner, ErrorCode, InitializeConfig, Key,
    TicketMetadata, TokenLottery,
};

fn key(tag: u8) -> Key {
    Key { bytes: [tag; 32] }
}

fn randomness_account(seed_slot: u64, reveal_slot: u64, first_byte: u8) -> Vec<u8> {
    let mut account: RandomnessAccountData = bytemuck::Zeroable::zeroed();
    account.seed_slot = seed_slot;
    account.reveal_slot = reveal_slot;
    account.value[0] = first_byte;
    account.value[1] = 200;
    let mut data = <RandomnessAccountData as Discriminator>::DISCRIMINATOR.to_vec();
    data.extend_from_slice(bytemuck::bytes_of(&account));
    data
}

fn lottery(start: u64, end: u64, price: u64) -> TokenLottery {
    let ctx = InitializeConfig { payer: key(1), token_lottery: None, bump: 254 };
    initialize_config(&ctx, 1, start, end, price).unwrap()
}

fn buy_at(lottery: &mut TokenLottery, slot: u64) -> Result<u64, ErrorCode> {
    let ctx = BuyTicket { payer: key(2), collection_mint: key(9), collection_mint_bump: 250, slot };
    buy_ticket(lottery, &ctx).map(|order| order.sequence_number)
}

fn commit_at(lottery: &mut TokenLottery, payer: Key, data: Vec<u8>, slot: u64) -> Result<
    (),
    ErrorCode,
> {
    let ctx = CommitWinner {
        payer,
        randomness_account: key(7),
        randomness_account_data: data,
        slot,
    };
    commit_a_winner(lottery, &ctx)
}

fn choose_at(lottery: &mut TokenLottery, payer: Key, account: Key, data: Vec<u8>, slot: u64) -> Result<
    (),
    ErrorCode,
> {
    let ctx = ChooseWinner {
        payer,
        randomness_account: account,
        randomness_account_data: data,
        slot,
    };
    choose_a_winner(lottery, &ctx)
}

fn claim(name: &str, collection: Option<Collection>, amount: u64) -> ClaimPrize {
    ClaimPrize {
        payer: key(3),
        metadata: TicketMetadata { name: name.to_string(), collection },
        destination_amount: amount,
        collection_mint: key(9),
    }
}

fn member() -> Option<Collection> {
    Some(Collection { verified: true, key: key(9) })
}

fn padded(name: &str) -> String {
    let mut padded = name.to_string();
    while padded.len() < 32 {
        padded.push('\0');
    }
    padded
}

/// A lottery with three tickets sold and ticket 1 selected as the winner.
fn drawn() -> TokenLottery {
    let mut lottery = lottery(100, 200, 10);
    for slot in [100, 150, 199] {
        buy_at(&mut lottery, slot).unwrap();
    }
    commit_at(&mut lottery, key(1), randomness_account(200, 0, 0), 201).unwrap();
    choose_at(&mut lottery, key(1), key(7), randomness_account(200, 201, 7), 201).unwrap();
    lottery
}

#[test]
fn scenario_sale_selection_and_claim() {
    let mut lottery = lottery(100, 200, 10);
    assert_eq!(buy_at(&mut lottery, 100), Ok(0));
    assert_eq!(buy_at(&mut lottery, 150), Ok(1));
    assert_eq!(buy_at(&mut lottery, 199), Ok(2));
    assert_eq!(lottery.number_of_tickets, 3);
    assert_eq!(lottery.lottery_pot_amount, 30);

    let before = lottery;
    assert_eq!(buy_at(&mut lottery, 201), Err(ErrorCode::LotteryNotOpen));
    assert_eq!(lottery, before);

    assert_eq!(commit_at(&mut lottery, key(1), randomness_account(200, 0, 0), 201), Ok(()));
    assert_eq!(lottery.randomness_account, Some(key(7)));

    let revealed = randomness_account(200, 201, 7);
    assert_eq!(choose_at(&mut lottery, key(1), key(7), revealed, 201), Ok(()));
    assert!(lottery.is_winner_chosen);
    assert_eq!(lottery.winner, 1);

    let winning = claim(&padded("Token Lottery Ticket1"), member(), 1);
    assert_eq!(claim_prize(&mut lottery, &winning), Ok(30));
    assert_eq!(lottery.lottery_pot_amount, 0);

    let other = claim(&padded("Token Lottery Ticket0"), member(), 1);
    assert_eq!(claim_prize(&mut lottery, &other), Err(ErrorCode::IncorrectTicket));
    assert_eq!(lottery.lottery_pot_amount, 0);
}

#[test]
fn configuration_starts_empty() {
    let lottery = lottery(100, 200, 10);
    assert_eq!(
        lottery,
        TokenLottery {
            id: 1,
            bump: 254,
            winner: 0,
            is_winner_chosen: false,
            lottery_start: 100,
            lottery_end: 200,
            price: 10,
            number_of_tickets: 0,
            lottery_pot_amount: 0,
            authority: key(1),
            randomness_account: None,
        }
    );
    assert!(lottery.is_valid());
}

#[test]
fn configuration_refuses_a_used_identifier() {
    let existing = lottery(100, 200, 10);
    let ctx = InitializeConfig { payer: key(1), token_lottery: Some(existing), bump: 254 };
    assert_eq!(initialize_config(&ctx, 1, 100, 200, 10), Err(ErrorCode::AlreadyInitialized));
    assert_eq!(initialize_config(&ctx, 1, 200, 100, 10), Err(ErrorCode::AlreadyInitialized));
}

#[test]
fn configuration_refuses_a_malformed_window() {
    let ctx = InitializeConfig { payer: key(1), token_lottery: None, bump: 254 };
    assert_eq!(initialize_config(&ctx, 1, 200, 100, 10), Err(ErrorCode::InvalidWindow));
    assert_eq!(initialize_config(&ctx, 1, 100, 100, 10), Err(ErrorCode::InvalidWindow));
    assert!(initialize_config(&ctx, 1, 100, 101, 10).is_ok());
}

#[test]
fn window_includes_both_ends() {
    let mut lottery = lottery(100, 200, 10);
    assert_eq!(buy_at(&mut lottery, 99), Err(ErrorCode::LotteryNotOpen));
    assert_eq!(buy_at(&mut lottery, 0), Err(ErrorCode::LotteryNotOpen));
    assert_eq!(buy_at(&mut lottery, 100), Ok(0));
    assert_eq!(buy_at(&mut lottery, 200), Ok(1));
    assert_eq!(buy_at(&mut lottery, 201), Err(ErrorCode::LotteryNotOpen));
    assert_eq!(buy_at(&mut lottery, u64::MAX), Err(ErrorCode::LotteryNotOpen));
    assert_eq!(lottery.number_of_tickets, 2);
    assert_eq!(lottery.lottery_pot_amount, 20);
}

#[test]
fn purchases_are_numbered_in_order_and_fill_the_pool() {
    let mut lottery = lottery(100, 200, 7);
    for expected in 0..50u64 {
        assert_eq!(buy_at(&mut lottery, 100 + expected), Ok(expected));
        assert_eq!(lottery.number_of_tickets, expected + 1);
        assert_eq!(lottery.lottery_pot_amount, 7 * (expected + 1));
    }
}

#[test]
fn purchase_orders_payment_and_mint() {
    let mut lottery = lottery(100, 200, 10);
    buy_at(&mut lottery, 100).unwrap();
    let ctx = BuyTicket {
        payer: key(2),
        collection_mint: key(9),
        collection_mint_bump: 250,
        slot: 120,
    };
    let order = buy_ticket(&mut lottery, &ctx).unwrap();
    assert_eq!(order.sequence_number, 1);
    assert_eq!(order.buyer, key(2));
    assert_eq!(order.payment, 10);
    assert_eq!(order.mint.name, "Token Lottery Ticket1");
    assert_eq!(order.mint.symbol, "TICKET");
    assert_eq!(order.mint.uri, "Token Lottery");
    assert_eq!(order.mint.amount, 1);
    assert_eq!(order.mint.seller_fee_basis_points, 0);
    assert_eq!(order.mint.creator, key(9));
    assert!(!order.mint.creator_verified);
    assert_eq!(order.mint.creator_share, 100);
    assert!(order.mint.is_mutable);
    assert!(order.mint.update_authority_is_signer);
    assert_eq!(order.mint.collection_size, None);
    assert_eq!(order.mint.max_supply, Some(0));
    assert_eq!(
        order.mint.signer_seeds,
        vec![b"collection_mint".to_vec(), vec![2u8; 32], 1u64.to_le_bytes().to_vec(), vec![250u8]]
    );
}

#[test]
fn commit_needs_the_authority() {
    let mut lottery = lottery(100, 200, 10);
    let before = lottery;
    let data = randomness_account(200, 0, 0);
    assert_eq!(commit_at(&mut lottery, key(2), data, 201), Err(ErrorCode::NotAuthorized));
    assert_eq!(
        commit_at(&mut lottery, key(2), vec![1, 2, 3], 201),
        Err(ErrorCode::NotAuthorized)
    );
    assert_eq!(lottery, before);
}

#[test]
fn commit_needs_a_commitment_one_slot_old() {
    let mut lottery = lottery(100, 200, 10);
    let before = lottery;
    for seed_slot in [0, 199, 201, 202, u64::MAX] {
        let data = randomness_account(seed_slot, 0, 0);
        assert_eq!(
            commit_at(&mut lottery, key(1), data, 201),
            Err(ErrorCode::RandomnessAlreadyRevealed)
        );
    }
    let data = randomness_account(u64::MAX, 0, 0);
    assert_eq!(commit_at(&mut lottery, key(1), data, 0), Err(ErrorCode::RandomnessAlreadyRevealed));
    assert_eq!(lottery, before);
    assert_eq!(commit_at(&mut lottery, key(1), randomness_account(200, 0, 0), 201), Ok(()));
    assert_eq!(lottery, TokenLottery { randomness_account: Some(key(7)), ..before });
}

#[test]
fn commit_reads_the_commitment_slot_of_the_account() {
    let mut lottery = lottery(100, 200, 10);
    let data = randomness_account(0x0102_0304_0506_0708, 5, 9);
    assert_eq!(commit_at(&mut lottery, key(1), data, 0x0102_0304_0506_0709), Ok(()));
}

#[test]
fn commit_refuses_data_that_is_no_randomness_account() {
    let mut lottery = lottery(100, 200, 10);
    let before = lottery;
    let good = randomness_account(200, 0, 0);
    let mut wrong_tag = good.clone();
    wrong_tag[0] ^= 1;
    let short = good[..good.len() - 1].to_vec();
    for data in [Vec::new(), vec![0u8; 7], wrong_tag, short] {
        assert_eq!(
            commit_at(&mut lottery, key(1), data, 201),
            Err(ErrorCode::IncorrectRandomnessAccount)
        );
    }
    assert_eq!(lottery, before);
}

#[test]
fn commit_may_bind_again() {
    let mut lottery = lottery(100, 200, 10);
    commit_at(&mut lottery, key(1), randomness_account(200, 0, 0), 201).unwrap();
    let ctx = CommitWinner {
        payer: key(1),
        randomness_account: key(8),
        randomness_account_data: randomness_account(204, 0, 0),
        slot: 205,
    };
    assert_eq!(commit_a_winner(&mut lottery, &ctx), Ok(()));
    assert_eq!(lottery.randomness_account, Some(key(8)));
}

#[test]
fn choose_checks_in_order() {
    let mut lottery = lottery(100, 200, 10);
    buy_at(&mut lottery, 100).unwrap();
    let data = randomness_account(200, 201, 7);
    // nothing is bound yet
    assert_eq!(
        choose_at(&mut lottery, key(1), key(7), data.clone(), 201),
        Err(ErrorCode::IncorrectRandomnessAccount)
    );
    commit_at(&mut lottery, key(1), randomness_account(200, 0, 0), 201).unwrap();
    let before = lottery;
    assert_eq!(
        choose_at(&mut lottery, key(2), key(8), data.clone(), 150),
        Err(ErrorCode::IncorrectRandomnessAccount)
    );
    assert_eq!(
        choose_at(&mut lottery, key(2), key(7), data.clone(), 150),
        Err(ErrorCode::NotAuthorized)
    );
    assert_eq!(
        choose_at(&mut lottery, key(1), key(7), data.clone(), 199),
        Err(ErrorCode::LotteryNotOpen)
    );
    assert_eq!(
        choose_at(&mut lottery, key(1), key(7), vec![0u8; 408], 201),
        Err(ErrorCode::IncorrectRandomnessAccount)
    );
    assert_eq!(
        choose_at(&mut lottery, key(1), key(7), data.clone(), 202),
        Err(ErrorCode::RandomnessNotResolved)
    );
    assert_eq!(lottery, before);
    assert_eq!(choose_at(&mut lottery, key(1), key(7), data, 201), Ok(()));
    assert_eq!(lottery, TokenLottery { winner: 0, is_winner_chosen: true, ..before });
}

#[test]
fn choose_at_the_last_slot_of_the_sale() {
    let mut lottery = lottery(100, 200, 10);
    buy_at(&mut lottery, 100).unwrap();
    buy_at(&mut lottery, 100).unwrap();
    commit_at(&mut lottery, key(1), randomness_account(199, 0, 0), 200).unwrap();
    let data = randomness_account(199, 200, 255);
    assert_eq!(choose_at(&mut lottery, key(1), key(7), data, 200), Ok(()));
    assert_eq!(lottery.winner, 1);
}

#[test]
fn choose_draws_from_the_first_byte_of_the_revealed_value() {
    for (byte, tickets, winner) in [(0u8, 3u64, 0u64), (7, 3, 1), (255, 256, 255), (255, 7, 3), (9, 1, 0)] {
        let mut lottery = lottery(100, 200, 10);
        for _ in 0..tickets {
            buy_at(&mut lottery, 100).unwrap();
        }
        commit_at(&mut lottery, key(1), randomness_account(200, 0, 0), 201).unwrap();
        let data = randomness_account(200, 201, byte);
        assert_eq!(choose_at(&mut lottery, key(1), key(7), data, 201), Ok(()));
        assert_eq!(lottery.winner, winner);
        assert!(lottery.winner < lottery.number_of_tickets);
        assert!(lottery.is_valid());
    }
}

#[test]
fn choose_a_second_time_is_refused() {
    let mut lottery = drawn();
    let before = lottery;
    for byte in [0u8, 1, 2, 7, 255] {
        let data = randomness_account(200, 201, byte);
        assert_eq!(
            choose_at(&mut lottery, key(1), key(7), data, 201),
            Err(ErrorCode::WinnerChosen)
        );
    }
    assert_eq!(
        choose_at(&mut lottery, key(1), key(7), Vec::new(), 500),
        Err(ErrorCode::WinnerChosen)
    );
    assert_eq!(lottery, before);
    assert_eq!(lottery.winner, 1);
}

#[test]
fn select_winner_takes_the_revealed_value_modulo_the_tickets() {
    let mut lottery = lottery(100, 200, 10);
    for _ in 0..3 {
        buy_at(&mut lottery, 100).unwrap();
    }
    lottery.bind_randomness(&key(1), &key(7), 200, 201).unwrap();
    let before = lottery;
    assert_eq!(
        lottery.select_winner(&key(1), &key(7), 201, None),
        Err(ErrorCode::RandomnessNotResolved)
    );
    assert_eq!(lottery, before);
    assert_eq!(lottery.select_winner(&key(1), &key(7), 201, Some(u64::MAX)), Ok(()));
    assert_eq!(lottery.winner, 0);
    assert_eq!(
        lottery.select_winner(&key(1), &key(7), 201, Some(5)),
        Err(ErrorCode::WinnerChosen)
    );
    assert_eq!(lottery.winner, 0);

    let mut other = before;
    assert_eq!(other.select_winner(&key(1), &key(7), 201, Some(7)), Ok(()));
    assert_eq!(other.winner, 1);
}

#[test]
fn bind_randomness_compares_commitment_and_slot() {
    let mut lottery = lottery(100, 200, 10);
    assert_eq!(lottery.bind_randomness(&key(2), &key(7), 200, 201), Err(ErrorCode::NotAuthorized));
    assert_eq!(
        lottery.bind_randomness(&key(1), &key(7), 201, 201),
        Err(ErrorCode::RandomnessAlreadyRevealed)
    );
    assert_eq!(
        lottery.bind_randomness(&key(1), &key(7), u64::MAX, 0),
        Err(ErrorCode::RandomnessAlreadyRevealed)
    );
    assert_eq!(lottery.bind_randomness(&key(1), &key(7), 0, 1), Ok(()));
    assert_eq!(lottery.bind_randomness(&key(1), &key(8), u64::MAX - 1, u64::MAX), Ok(()));
    assert_eq!(lottery.randomness_account, Some(key(8)));
}

#[test]
fn claim_before_selection_is_refused() {
    let mut lottery = lottery(100, 200, 10);
    buy_at(&mut lottery, 100).unwrap();
    let ticket = claim("Token Lottery Ticket0", member(), 1);
    assert_eq!(claim_prize(&mut lottery, &ticket), Err(ErrorCode::WinnerNotChosen));
    assert_eq!(lottery.lottery_pot_amount, 10);
}

#[test]
fn claim_needs_a_verified_member_of_the_collection() {
    let mut lottery = drawn();
    let before = lottery;
    let name = "Token Lottery Ticket1";
    let unverified = Some(Collection { verified: false, key: key(9) });
    let elsewhere = Some(Collection { verified: true, key: key(8) });
    assert_eq!(
        claim_prize(&mut lottery, &claim(name, None, 1)),
        Err(ErrorCode::NotVerifiedTicket)
    );
    assert_eq!(
        claim_prize(&mut lottery, &claim(name, unverified, 1)),
        Err(ErrorCode::NotVerifiedTicket)
    );
    assert_eq!(
        claim_prize(&mut lottery, &claim(name, elsewhere, 1)),
        Err(ErrorCode::IncorrectTicket)
    );
    assert_eq!(lottery, before);
}

#[test]
fn claim_needs_the_winning_name_and_a_holding() {
    let mut lottery = drawn();
    let before = lottery;
    for name in [
        "Token Lottery Ticket0",
        "Token Lottery Ticket2",
        "Token Lottery Ticket11",
        "Token Lottery Ticket01",
        "Token Lottery Ticket",
        "token lottery ticket1",
        " Token Lottery Ticket1",
        "Token Lottery Ticket1 ",
        "",
    ] {
        assert_eq!(
            claim_prize(&mut lottery, &claim(name, member(), 1)),
            Err(ErrorCode::IncorrectTicket)
        );
    }
    assert_eq!(
        claim_prize(&mut lottery, &claim("Token Lottery Ticket1", member(), 0)),
        Err(ErrorCode::IncorrectTicket)
    );
    assert_eq!(lottery, before);
    assert_eq!(claim_prize(&mut lottery, &claim("Token Lottery Ticket1", member(), 5)), Ok(30));
    assert_eq!(lottery, TokenLottery { lottery_pot_amount: 0, ..before });
}

#[test]
fn claim_strips_padding_wherever_it_stands() {
    let mut lottery = drawn();
    let name = "\0Token Lottery\0 Ticket1\0\0";
    assert_eq!(claim_prize(&mut lottery, &claim(name, member(), 1)), Ok(30));
}

#[test]
fn claim_a_second_time_moves_nothing() {
    let mut lottery = drawn();
    let ticket = claim(&padded("Token Lottery Ticket1"), member(), 1);
    assert_eq!(claim_prize(&mut lottery, &ticket), Ok(30));
    assert_eq!(claim_prize(&mut lottery, &ticket), Ok(0));
    assert_eq!(lottery.lottery_pot_amount, 0);
}

#[test]
fn record_validity_is_checked() {
    let good = drawn();
    assert!(good.is_valid());
    assert!(!TokenLottery { lottery_start: 200, ..good }.is_valid());
    assert!(!TokenLottery { price: 0, ..good }.is_valid());
    assert!(!TokenLottery { winner: 3, ..good }.is_valid());
    assert!(!TokenLottery { randomness_account: None, ..good }.is_valid());
    assert!(TokenLottery { winner: 3, is_winner_chosen: false, ..good }.is_valid());
}
