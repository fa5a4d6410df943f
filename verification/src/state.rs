use vstd::prelude::*;
use crate::account::AccountId;
use crate::events::{Payment, RegisterTicket};
use crate::slots::{empty_slots, filled_count, slots_wf};
use crate::ticket::Ticket;

verus! {

/// Fixed price of one ticket. A registration must pay exactly this amount.
pub const BET_PRICE: u128 = 1_000_000;

/// Length of a round's time window, in time-steps ("blocks").
pub const BLOCKS_PER_ROUND: u32 = 10;

/// The abstract state of the lottery engine.
///
/// `registry` maps a (ticket, round) pair to its eight participant slots;
/// a pair that was never registered is absent and stands for the all-empty
/// slot array. `events` and `payouts` are the outboxes of notifications and
/// ledger transfers the engine has asked the host to perform.
#[verifier::ext_equal]
pub ghost struct State {
    pub registry: Map<(Ticket, u8), Seq<AccountId>>,
    pub round: u8,
    pub last_drawing: u32,
    pub jackpot: u128,
    pub winner_ticket: Ticket,
    pub last_jackpot: u128,
    pub last_pot_per_ticket: u128,
    pub events: Seq<RegisterTicket>,
    pub payouts: Seq<Payment>,
}

/// Every slot array held in the registry is well-formed: eight slots,
/// filled left to right.
pub open spec fn state_wf(st: State) -> bool {
    forall|p: (Ticket, u8)| #[trigger] st.registry.contains_key(p) ==> slots_wf(st.registry[p])
}

/// The participant slots of `t` in round `r`: the registered slot array, or
/// the all-empty one when the pair was never registered.
pub open spec fn participants_of(st: State, t: Ticket, r: u8) -> Seq<AccountId> {
    if st.registry.contains_key((t, r)) {
        st.registry[(t, r)]
    } else {
        empty_slots()
    }
}

/// The state the engine starts in: round zero, empty pool, zero winning
/// ticket, and the creation time as the last drawing time. The zero ticket
/// of round zero is pre-seeded with the all-empty slot array.
pub open spec fn initial_state(now: u32) -> State {
    State {
        registry: Map::empty().insert((Ticket::spec_zero(), 0), empty_slots()),
        round: 0,
        last_drawing: now,
        jackpot: 0,
        winner_ticket: Ticket::spec_zero(),
        last_jackpot: 0,
        last_pot_per_ticket: 0,
        events: Seq::empty(),
        payouts: Seq::empty(),
    }
}

/// A ticket is sold out for the current round when all eight of its slots
/// are occupied.
pub open spec fn sold_out(st: State, t: Ticket) -> bool {
    filled_count(participants_of(st, t, st.round)) >= 8
}

/// Effect of one successful registration, before any draw it may trigger:
/// the caller takes the first empty slot of the ticket's array for the
/// current round, the pool grows by the ticket price, and a notification is
/// appended to the event outbox.
pub open spec fn register_effect(st: State, t: Ticket, caller: AccountId) -> State {
    let s0 = participants_of(st, t, st.round);
    let s1 = s0.update(filled_count(s0) as int, caller);
    State {
        registry: st.registry.insert((t, st.round), s1),
        jackpot: (st.jackpot + BET_PRICE) as u128,
        events: st.events.push(RegisterTicket { ticket: t, from: caller }),
        ..st
    }
}

/// Whether a registration at time-step `now` must trigger a draw: the
/// round's window has elapsed, and `now` is not the genesis time-step.
pub open spec fn draw_due(st: State, now: u32) -> bool {
    now - st.last_drawing >= BLOCKS_PER_ROUND && now != 0
}

/// The per-winner payout: an eighth of the pool, times the number of eighths
/// each of the `n` winners receives, both with truncating integer division.
/// When `n` does not divide eight evenly this under-pays and the shortfall
/// stays in the engine.
pub open spec fn payout_per_winner(pool: u128, n: nat) -> int {
    (pool / 8) * (8int / n as int)
}

/// The ledger transfers for the first `n` winner slots, each for `amount`.
pub open spec fn payments_to(winners: Seq<AccountId>, n: nat, amount: u128) -> Seq<Payment> {
    Seq::new(n, |i: int| Payment { to: winners[i], amount })
}

/// Effect of the payout procedure on the state. With a positive pool and at
/// least one occupied winner slot, the round closes: each winner is owed the
/// per-winner payout, the pool is recorded as the last jackpot and drained,
/// and the round counter advances by one. Otherwise nothing changes.
pub open spec fn payout_effect(st: State, winners: Seq<AccountId>) -> State {
    let n = filled_count(winners);
    if st.jackpot > 0 && n > 0 {
        let amount = payout_per_winner(st.jackpot, n) as u128;
        State {
            last_pot_per_ticket: amount,
            payouts: st.payouts + payments_to(winners, n, amount),
            round: (st.round + 1) as u8,
            last_jackpot: st.jackpot,
            jackpot: 0,
            ..st
        }
    } else {
        st
    }
}

/// The winning ticket derived from a random block: its first three bytes.
pub open spec fn winning_ticket_of(block: Seq<u8>) -> Ticket {
    Ticket { b0: block[0], b1: block[1], b2: block[2] }
}

/// Effect of a draw that derived the winning ticket `wt` at time-step `now`:
/// the winning ticket and the drawing time are recorded, and the winners of
/// the still-open round — the holders of `wt` registered while it was
/// current — receive the payout, if there are any and the pool is not empty.
pub open spec fn draw_effect(st: State, wt: Ticket, now: u32) -> State {
    let recorded = State { winner_ticket: wt, last_drawing: now, ..st };
    payout_effect(recorded, participants_of(st, wt, st.round))
}

} // verus!
