use lottery::account::AccountId;
use lottery::engine::{Error, Lottery};
use lottery::events::{Payment, RegisterTicket};
use lottery::oracle::{FetchRandom, RandomReadErr};
use lottery::state::{BET_PRICE, BLOCKS_PER_ROUND};
use lottery::ticket::Ticket;

/// Oracle whose random block starts with the bytes 21, 236, 123.
struct WinOracle;

impl FetchRandom for WinOracle {
    fn fetch_random(&mut self) -> Result<[u8; 32], RandomReadErr> {
        let mut block = [0u8; 32];
        block[0] = 21;
        block[1] = 236;
        block[2] = 123;
        Ok(block)
    }
}

/// Oracle that is unavailable.
struct DownOracle;

impl FetchRandom for DownOracle {
    fn fetch_random(&mut self) -> Result<[u8; 32], RandomReadErr> {
        Err(RandomReadErr::FailGetRandomSource)
    }
}

fn alice() -> AccountId {
    AccountId::new(1)
}

fn bob() -> AccountId {
    AccountId::new(2)
}

fn eve() -> AccountId {
    AccountId::new(3)
}

fn default_slots() -> Vec<AccountId> {
    vec![AccountId::new(0); 8]
}

fn get_win_ticket() -> Ticket {
    Ticket::new(21, 236, 123)
}

fn register_number_of_same_tickets(
    num_registers: u8,
    ticket: Ticket,
    mut contract: Lottery,
    caller: AccountId,
) -> Lottery {
    for _i in 0..num_registers {
        assert_eq!(
            contract.register_ticket(ticket, caller, BET_PRICE, 0, &mut WinOracle),
            Ok(())
        );
    }
    contract
}

fn setup_jackpot(numb_tickets: u8) -> Lottery {
    let mut contract = Lottery::new(0);
    for i in 0..numb_tickets {
        let ticket_arr = Ticket::new(i, i, i);
        assert_eq!(
            contract.register_ticket(ticket_arr, bob(), BET_PRICE, 0, &mut WinOracle),
            Ok(())
        );
    }
    contract
}

fn register_number_of_win_tickets(num_registers: u8, mut contract: Lottery) -> Lottery {
    for i in 0..num_registers {
        let acc = i % 3;
        let caller = if acc == 0 {
            eve()
        } else if acc == 1 {
            alice()
        } else {
            bob()
        };
        assert_eq!(
            contract.register_ticket(get_win_ticket(), caller, BET_PRICE, 0, &mut WinOracle),
            Ok(())
        );
    }
    contract
}

#[test]
fn default_works() {
    let mut contract = Lottery::new(0);
    let init = contract.get_winner_ticket();
    contract.draw(0, &mut WinOracle).unwrap();
    let second = contract.get_winner_ticket();
    assert_ne!(init, second);
}

#[test]
fn register_works() {
    let ticket = Ticket::new(1, 2, 3);
    let mut contract = Lottery::new(0);
    assert_eq!(
        contract.register_ticket(ticket, alice(), BET_PRICE, 0, &mut WinOracle),
        Ok(())
    );
}

#[test]
fn transferred_balance_too_low() {
    let too_low_price = BET_PRICE - 1;
    let ticket_arr = Ticket::new(0, 0, 0);
    let mut contract = Lottery::new(0);
    assert_eq!(
        contract.register_ticket(ticket_arr, alice(), too_low_price, 0, &mut WinOracle),
        Err(Error::TicketCosts)
    );
}

#[test]
fn transferred_balance_too_high() {
    let too_high_price = BET_PRICE + 1;
    let ticket_arr = Ticket::new(0, 0, 0);
    let mut contract = Lottery::new(0);
    assert_eq!(
        contract.register_ticket(ticket_arr, alice(), too_high_price, 0, &mut WinOracle),
        Err(Error::TicketCosts)
    );
}

#[test]
fn get_accounts_by_lottery_default_should_be_default() {
    let contract = Lottery::default();
    assert_eq!(
        contract.get_accounts_by_ticket(Ticket::new(0, 0, 0)),
        default_slots()
    );
}

#[test]
fn get_accounts_by_ticket_init_should_be_default() {
    let contract = Lottery::new(0);
    assert_eq!(
        contract.get_accounts_by_ticket(Ticket::new(0, 0, 0)),
        default_slots()
    );
}

#[test]
fn get_next_drawing_init_should_be_block_per_round() {
    let contract = Lottery::new(0);
    assert_eq!(BLOCKS_PER_ROUND, contract.get_next_drawing())
}

#[test]
fn next_drawing_changed_after_first_draw() {
    let mut contract = setup_jackpot(8);
    let ticket_arr = Ticket::new(0, 0, 0);
    let old_next_drawing = contract.get_next_drawing();
    let now = BLOCKS_PER_ROUND;
    assert_eq!(
        contract.register_ticket(ticket_arr, bob(), BET_PRICE, now, &mut WinOracle),
        Ok(())
    );
    assert_ne!(old_next_drawing, contract.get_next_drawing());
}

#[test]
fn last_winner_ticket_changed_after_first_draw() {
    let mut contract = setup_jackpot(8);
    let ticket_arr = Ticket::new(0, 0, 0);
    let old_win_ticket = contract.get_winner_ticket();
    let now = BLOCKS_PER_ROUND;
    assert_eq!(
        contract.register_ticket(ticket_arr, bob(), BET_PRICE, now, &mut WinOracle),
        Ok(())
    );
    assert_ne!(get_win_ticket(), old_win_ticket)
}

#[test]
fn last_drawing_changed_after_first_draw() {
    let mut contract = setup_jackpot(8);
    let ticket_arr = Ticket::new(0, 0, 0);
    let old_last_drawing = contract.get_last_drawing();
    let now = BLOCKS_PER_ROUND;
    assert_eq!(
        contract.register_ticket(ticket_arr, bob(), BET_PRICE, now, &mut WinOracle),
        Ok(())
    );
    assert_ne!(old_last_drawing, contract.get_last_drawing());
}

#[test]
fn get_accounts_by_ticket_should_be_alice() {
    let mut contract = Lottery::new(0);
    let ticket = Ticket::new(1, 2, 3);
    contract = register_number_of_same_tickets(1, ticket, contract, alice());
    let mut winner_acc = default_slots();
    winner_acc[0] = alice();
    assert_eq!(contract.get_accounts_by_ticket(ticket), winner_acc);
}

#[test]
fn get_accounts_by_ticket_should_be_two_alice() {
    let ticket = Ticket::new(1, 2, 3);
    let mut winner_acc = default_slots();
    winner_acc[0] = alice();
    winner_acc[1] = alice();
    let mut contract = Lottery::new(0);
    contract = register_number_of_same_tickets(2, ticket, contract, alice());
    assert_eq!(contract.get_accounts_by_ticket(ticket), winner_acc);
}

#[test]
fn ticket_filled_dont_panic() {
    let ticket_arr = Ticket::new(100, 100, 100);
    let mut contract = Lottery::new(0);
    // 8 is fine
    for _i in 0..8 {
        assert_eq!(
            contract.register_ticket(ticket_arr, bob(), BET_PRICE, 0, &mut WinOracle),
            Ok(())
        );
    }
}

#[test]
#[should_panic]
fn ticket_sold_out() {
    let ticket_arr = Ticket::new(99, 99, 99);
    let mut contract = Lottery::new(0);
    for _i in 0..9 {
        assert_eq!(
            contract.register_ticket(ticket_arr, bob(), BET_PRICE, 0, &mut WinOracle),
            Ok(())
        );
    }
}

#[test]
fn get_last_drawing_init_should_be_zero() {
    let contract = Lottery::new(0);
    assert_eq!(contract.get_last_drawing(), 0);
}

#[test]
fn test_draw_sets_last_drawing_to_actual_block() {
    let mut contract = Lottery::new(0);
    contract.draw(10, &mut WinOracle).unwrap();
    assert_eq!(contract.get_last_drawing(), 10);
}

#[test]
fn test_last_winner_ticket_init() {
    let contract = Lottery::new(0);
    assert_eq!(contract.get_winner_ticket(), Ticket::new(0, 0, 0));
}

#[test]
fn test_last_winner_ticket_not_init_after_draw() {
    let mut contract = Lottery::new(0);
    contract.draw(0, &mut WinOracle).unwrap();
    assert_ne!(contract.get_winner_ticket(), Ticket::new(0, 0, 0));
}

#[test]
fn test_last_winner_ticket_is_win_ticket() {
    let mut contract = Lottery::new(0);
    contract.draw(0, &mut WinOracle).unwrap();
    assert_eq!(contract.get_winner_ticket(), get_win_ticket());
}

#[test]
fn winner_is_default_on_init() {
    let contract = Lottery::new(0);
    let winners = default_slots();
    assert_eq!(winners, contract.get_last_winner_or_default())
}

#[test]
fn winner_is_alice() {
    let mut contract = Lottery::new(0);
    assert_eq!(
        contract.register_ticket(get_win_ticket(), alice(), BET_PRICE, 0, &mut WinOracle),
        Ok(())
    );
    contract.draw(10, &mut WinOracle).unwrap();
    let mut winners = default_slots();
    winners[0] = alice();
    assert_eq!(winners, contract.get_last_winner_or_default())
}

#[test]
fn winner_is_bob_and_not_alice() {
    let mut contract = Lottery::new(0);
    assert_eq!(
        contract.register_ticket(get_win_ticket(), bob(), BET_PRICE, 0, &mut WinOracle),
        Ok(())
    );
    let ticket_arr2 = Ticket::new(1, 1, 1);
    assert_eq!(
        contract.register_ticket(ticket_arr2, alice(), BET_PRICE, 0, &mut WinOracle),
        Ok(())
    );
    contract.draw(0, &mut WinOracle).unwrap();
    let winner = contract.get_last_winner_or_default();

    let mut should_be_winner = default_slots();
    should_be_winner[0] = bob();
    assert_eq!(should_be_winner, winner);

    let mut not_the_winner = default_slots();
    not_the_winner[0] = alice();
    assert_ne!(not_the_winner, winner);
}

#[test]
#[should_panic]
fn fetch_random_without_chain_extension_should_panic() {
    let mut contract = Lottery::new(0);
    contract.draw(0, &mut DownOracle).unwrap();
}

#[test]
fn test_255_applicants() {
    let mut contract = setup_jackpot(255);
    assert_eq!(
        contract.register_ticket(get_win_ticket(), bob(), BET_PRICE, 0, &mut WinOracle),
        Ok(())
    );
}

#[test]
fn winner_is_bob_and_alice() {
    let mut contract = Lottery::new(0);
    assert_eq!(
        contract.register_ticket(get_win_ticket(), bob(), BET_PRICE, 0, &mut WinOracle),
        Ok(())
    );
    assert_eq!(
        contract.register_ticket(get_win_ticket(), alice(), BET_PRICE, 0, &mut WinOracle),
        Ok(())
    );
    contract.draw(0, &mut WinOracle).unwrap();
    assert_eq!(get_win_ticket(), contract.get_winner_ticket());
    let winner = contract.get_last_winner_or_default();
    let mut should_win = default_slots();
    should_win[0] = bob();
    should_win[1] = alice();
    assert_eq!(should_win, winner);
}

#[test]
fn jackpot_should_be_twice_ticket_price() {
    let mut contract = Lottery::new(0);
    contract = register_number_of_win_tickets(2, contract);
    assert_eq!(2_000_000, contract.get_jackpot());
}

#[test]
fn two_winner_jackpot_should_be_half() {
    let mut contract = setup_jackpot(5);
    contract = register_number_of_win_tickets(2, contract);
    contract.draw(0, &mut WinOracle).unwrap();
    let winner = contract.get_winner_or_default();
    contract.transfer_to_winners(winner);
    assert_eq!(3_500_000, contract.get_last_pot_per_ticket());
}

#[test]
fn three_winner_jackpot_should_be_third() {
    let mut contract = setup_jackpot(5);
    contract = register_number_of_win_tickets(3, contract);
    contract.draw(0, &mut WinOracle).unwrap();
    let winner = contract.get_winner_or_default();
    contract.transfer_to_winners(winner);
    assert_eq!(2_000_000, contract.get_last_pot_per_ticket());
}

#[test]
fn four_winner_jackpot_should_be_fourth() {
    let mut contract = setup_jackpot(5);
    contract = register_number_of_win_tickets(4, contract);
    contract.draw(0, &mut WinOracle).unwrap();
    let winner = contract.get_winner_or_default();
    contract.transfer_to_winners(winner);
    assert_eq!(2_250_000, contract.get_last_pot_per_ticket());
}

#[test]
fn eight_winner_jackpot_should_be_eighth() {
    let mut contract = setup_jackpot(5);
    contract = register_number_of_win_tickets(8, contract);
    contract.draw(0, &mut WinOracle).unwrap();
    let winner = contract.get_winner_or_default();
    contract.transfer_to_winners(winner);
    assert_eq!(1_625_000, contract.get_last_pot_per_ticket());
}

#[test]
fn last_jackpot_initial_should_be_0() {
    let contract = Lottery::new(0);
    assert_eq!(0, contract.get_last_jackpot());
}

#[test]
fn last_jackpot_should_be_1000000() {
    let mut contract = setup_jackpot(1);
    contract = register_number_of_win_tickets(1, contract);
    contract.draw(0, &mut WinOracle).unwrap();
    assert_eq!(2_000_000, contract.get_last_jackpot());
}

#[test]
fn last_jackpot_should_be_10000000() {
    let mut contract = setup_jackpot(9);
    contract = register_number_of_win_tickets(1, contract);
    contract.draw(0, &mut WinOracle).unwrap();
    assert_eq!(10_000_000, contract.get_last_jackpot());
}

#[test]
fn reset_game_works() {
    let mut contract = Lottery::new(0);
    let ticket = get_win_ticket();
    let ticket_arr2 = Ticket::new(1, 1, 1);
    assert_eq!(
        contract.register_ticket(ticket, alice(), BET_PRICE, 0, &mut WinOracle),
        Ok(())
    );
    assert_eq!(
        contract.register_ticket(ticket_arr2, alice(), BET_PRICE, 0, &mut WinOracle),
        Ok(())
    );
    let account_ticket = contract.get_accounts_by_ticket(ticket);
    contract.reset_game();
    assert_ne!(contract.get_accounts_by_ticket(ticket), account_ticket);
}

#[test]
fn wrong_price_leaves_pool_slots_and_round_unchanged() {
    let ticket = Ticket::new(4, 5, 6);
    let mut contract = Lottery::new(0);
    assert_eq!(
        contract.register_ticket(ticket, alice(), BET_PRICE, 0, &mut WinOracle),
        Ok(())
    );
    let pool_before = contract.get_jackpot();
    let slots_before = contract.get_accounts_by_ticket(ticket);
    let prev_before = contract.get_last_winner_or_default();
    for bad_price in [0, BET_PRICE - 1, BET_PRICE + 1, 2 * BET_PRICE] {
        assert_eq!(
            contract.register_ticket(ticket, bob(), bad_price, 0, &mut WinOracle),
            Err(Error::TicketCosts)
        );
    }
    assert_eq!(contract.get_jackpot(), pool_before);
    assert_eq!(contract.get_accounts_by_ticket(ticket), slots_before);
    assert_eq!(contract.get_last_winner_or_default(), prev_before);
}

#[test]
fn eight_registrations_fill_slots_in_submission_order() {
    let ticket = Ticket::new(7, 7, 7);
    let mut contract = Lottery::new(0);
    let mut expected = default_slots();
    for i in 0..8u64 {
        let caller = AccountId::new(10 + i);
        assert_eq!(
            contract.register_ticket(ticket, caller, BET_PRICE, 0, &mut WinOracle),
            Ok(())
        );
        expected[i as usize] = caller;
    }
    assert_eq!(contract.get_accounts_by_ticket(ticket), expected);
    // the ninth registration fails and mutates nothing
    let pool_before = contract.get_jackpot();
    assert_eq!(
        contract.register_ticket(ticket, AccountId::new(99), BET_PRICE, 0, &mut WinOracle),
        Err(Error::TicketAlreadyExists)
    );
    assert_eq!(contract.get_accounts_by_ticket(ticket), expected);
    assert_eq!(contract.get_jackpot(), pool_before);
}

#[test]
fn registration_before_window_does_not_draw() {
    let mut contract = Lottery::new(0);
    let now = BLOCKS_PER_ROUND - 1;
    assert_eq!(
        contract.register_ticket(get_win_ticket(), alice(), BET_PRICE, now, &mut WinOracle),
        Ok(())
    );
    assert_eq!(contract.get_last_drawing(), 0);
    assert_eq!(contract.get_winner_ticket(), Ticket::new(0, 0, 0));
    // the round is still the one the ticket was sold in
    let mut winners = default_slots();
    winners[0] = alice();
    assert_eq!(contract.get_accounts_by_ticket(get_win_ticket()), winners);
    assert_eq!(contract.get_jackpot(), BET_PRICE);
}

#[test]
fn draw_without_winner_keeps_pool_and_round() {
    let mut contract = Lottery::new(0);
    assert_eq!(
        contract.register_ticket(Ticket::new(9, 9, 9), bob(), BET_PRICE, 0, &mut WinOracle),
        Ok(())
    );
    contract.draw(12, &mut WinOracle).unwrap();
    // the winning ticket has no holder: nothing is paid, the round stays open
    assert_eq!(contract.get_jackpot(), BET_PRICE);
    assert_eq!(contract.get_last_jackpot(), 0);
    assert_eq!(contract.get_last_pot_per_ticket(), 0);
    let mut holders = default_slots();
    holders[0] = bob();
    assert_eq!(contract.get_accounts_by_ticket(Ticket::new(9, 9, 9)), holders);
    // but the draw itself is recorded
    assert_eq!(contract.get_winner_ticket(), get_win_ticket());
    assert_eq!(contract.get_last_drawing(), 12);
}

#[test]
fn failed_oracle_aborts_registration_entirely() {
    let mut contract = Lottery::new(0);
    assert_eq!(
        contract.register_ticket(get_win_ticket(), alice(), BET_PRICE, 0, &mut WinOracle),
        Ok(())
    );
    let pool_before = contract.get_jackpot();
    let slots_before = contract.get_accounts_by_ticket(get_win_ticket());
    // the window has elapsed, so this registration must draw; the oracle is down
    assert_eq!(
        contract.register_ticket(get_win_ticket(), bob(), BET_PRICE, 20, &mut DownOracle),
        Err(Error::RandomUnavailable)
    );
    assert_eq!(contract.get_jackpot(), pool_before);
    assert_eq!(contract.get_accounts_by_ticket(get_win_ticket()), slots_before);
    assert_eq!(contract.get_last_drawing(), 0);
}

#[test]
fn winning_draw_advances_exactly_one_round() {
    let mut contract = Lottery::new(0);
    assert_eq!(
        contract.register_ticket(get_win_ticket(), alice(), BET_PRICE, 0, &mut WinOracle),
        Ok(())
    );
    contract.draw(10, &mut WinOracle).unwrap();
    // the new round sees the winning ticket as unregistered again
    assert_eq!(
        contract.get_accounts_by_ticket(get_win_ticket()),
        default_slots()
    );
    let mut previous = default_slots();
    previous[0] = alice();
    assert_eq!(contract.get_last_winner_or_default(), previous);
    // a second winner-bearing draw advances once more
    assert_eq!(
        contract.register_ticket(get_win_ticket(), bob(), BET_PRICE, 11, &mut WinOracle),
        Ok(())
    );
    contract.draw(20, &mut WinOracle).unwrap();
    let mut second_winners = default_slots();
    second_winners[0] = bob();
    assert_eq!(contract.get_last_winner_or_default(), second_winners);
}

#[test]
fn payout_outbox_holds_one_payment_per_winner() {
    let mut contract = setup_jackpot(5);
    contract = register_number_of_win_tickets(2, contract);
    contract.draw(0, &mut WinOracle).unwrap();
    assert_eq!(
        contract.payouts,
        vec![
            Payment {
                to: eve(),
                amount: 3_500_000
            },
            Payment {
                to: alice(),
                amount: 3_500_000
            },
        ]
    );
}

#[test]
fn event_outbox_records_each_registration() {
    let mut contract = Lottery::new(0);
    let ticket = Ticket::new(1, 2, 3);
    assert_eq!(
        contract.register_ticket(ticket, alice(), BET_PRICE, 0, &mut WinOracle),
        Ok(())
    );
    assert_eq!(
        contract.register_ticket(get_win_ticket(), bob(), BET_PRICE, 0, &mut WinOracle),
        Ok(())
    );
    assert_eq!(
        contract.events,
        vec![
            RegisterTicket {
                ticket,
                from: alice()
            },
            RegisterTicket {
                ticket: get_win_ticket(),
                from: bob()
            },
        ]
    );
}

#[test]
fn getters_are_idempotent() {
    let mut contract = setup_jackpot(3);
    contract = register_number_of_win_tickets(2, contract);
    contract.draw(10, &mut WinOracle).unwrap();
    assert_eq!(contract.get_winner_ticket(), contract.get_winner_ticket());
    assert_eq!(
        contract.get_accounts_by_ticket(get_win_ticket()),
        contract.get_accounts_by_ticket(get_win_ticket())
    );
    assert_eq!(contract.get_jackpot(), contract.get_jackpot());
    assert_eq!(contract.get_last_drawing(), contract.get_last_drawing());
    assert_eq!(contract.get_last_jackpot(), contract.get_last_jackpot());
    assert_eq!(
        contract.get_last_winner_or_default(),
        contract.get_last_winner_or_default()
    );
    assert_eq!(contract.get_next_drawing(), contract.get_next_drawing());
    assert_eq!(
        contract.get_last_pot_per_ticket(),
        contract.get_last_pot_per_ticket()
    );
}

#[test]
fn status_code_decoding() {
    assert_eq!(RandomReadErr::from_status_code(0), Ok(()));
    assert_eq!(
        RandomReadErr::from_status_code(1),
        Err(RandomReadErr::FailGetRandomSource)
    );
}
