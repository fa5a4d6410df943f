use vstd::prelude::*;
use crate::account::AccountId;
use crate::events::Payment;
use crate::slots::{
    empty_slots, filled_count, lemma_filled_count_eq, lemma_packed_filled, slots_wf,
};
use crate::state::{
    draw_effect, initial_state, participants_of, payout_per_winner, register_effect, sold_out,
    state_wf, State,
};
use crate::ticket::Ticket;

verus! {

/// The all-empty slot array is well-formed and has no occupied slot.
pub proof fn lemma_empty_slots_wf()
    ensures
        slots_wf(empty_slots()),
        filled_count(empty_slots()) == 0,
        forall|i: int| 0 <= i < 8 ==> (#[trigger] empty_slots()[i]).spec_is_empty(),
{
    lemma_filled_count_eq(empty_slots(), 0);
}

/// A (ticket, round) pair that has no registry entry — in particular, one
/// that was never registered — reads back as the all-empty slot array.
pub proof fn lemma_unregistered_participants_empty(st: State, t: Ticket, r: u8)
    requires
        !st.registry.contains_key((t, r)),
    ensures
        participants_of(st, t, r) == empty_slots(),
        forall|i: int| 0 <= i < 8 ==> (#[trigger] participants_of(st, t, r)[i]).spec_is_empty(),
{
    lemma_empty_slots_wf();
}

/// A registration touches only its own (ticket, current round) entry: the
/// participants of every other pair — other tickets, and the same ticket in
/// every other round — are left exactly as they were.
pub proof fn lemma_register_preserves_other_participants(
    st: State,
    t: Ticket,
    caller: AccountId,
    t2: Ticket,
    r2: u8,
)
    requires
        (t2, r2) != (t, st.round),
    ensures
        participants_of(register_effect(st, t, caller), t2, r2) == participants_of(st, t2, r2),
{
}

/// Occupying a slot: placing a non-sentinel identity in the first empty slot
/// of a well-formed, not-full slot array keeps it well-formed and grows its
/// occupied prefix by exactly one.
pub proof fn lemma_fill_slot(s: Seq<AccountId>, who: AccountId)
    requires
        slots_wf(s),
        filled_count(s) < 8,
        !who.spec_is_empty(),
    ensures
        slots_wf(s.update(filled_count(s) as int, who)),
        filled_count(s.update(filled_count(s) as int, who)) == filled_count(s) + 1,
        s.update(filled_count(s) as int, who)[filled_count(s) as int] == who,
{
    lemma_packed_filled(s);
    let k = filled_count(s) as int;
    let s2 = s.update(k, who);
    assert(forall|i: int| 0 <= i < s2.len() ==> (!(#[trigger] s2[i]).spec_is_empty() <==> i < k
        + 1));
    lemma_filled_count_eq(s2, k + 1);
}

/// Registrations fill the eight slots in submission order: each successful
/// registration appends the caller right after the already-occupied prefix,
/// leaves the earlier slots untouched, and keeps the state well-formed.
/// (The ninth registration for a ticket never reaches this point: with all
/// eight slots occupied the ticket is sold out and registration fails
/// without mutating anything.)
pub proof fn lemma_register_fills_in_order(st: State, t: Ticket, caller: AccountId)
    requires
        state_wf(st),
        !sold_out(st, t),
        !caller.spec_is_empty(),
    ensures
        state_wf(register_effect(st, t, caller)),
        participants_of(register_effect(st, t, caller), t, st.round) == participants_of(
            st,
            t,
            st.round,
        ).update(filled_count(participants_of(st, t, st.round)) as int, caller),
        participants_of(register_effect(st, t, caller), t, st.round)[filled_count(
            participants_of(st, t, st.round),
        ) as int] == caller,
        filled_count(participants_of(register_effect(st, t, caller), t, st.round)) == filled_count(
            participants_of(st, t, st.round),
        ) + 1,
        forall|j: int|
            0 <= j < filled_count(participants_of(st, t, st.round)) ==> participants_of(
                register_effect(st, t, caller),
                t,
                st.round,
            )[j] == #[trigger] participants_of(st, t, st.round)[j],
{
    let before = participants_of(st, t, st.round);
    lemma_empty_slots_wf();
    assert(slots_wf(before));
    lemma_fill_slot(before, caller);
    let after = register_effect(st, t, caller);
    assert forall|p: (Ticket, u8)| #[trigger] after.registry.contains_key(p) implies slots_wf(
        after.registry[p],
    ) by {
        if p != (t, st.round) {
            assert(st.registry.contains_key(p));
            assert(after.registry[p] == st.registry[p]);
        }
    }
}

/// A registration by itself — before any draw it may go on to trigger —
/// never moves the clock or the round: the last drawing time, the round
/// counter, the winning ticket and the recorded last jackpot and payout all
/// stay as they were.
pub proof fn lemma_register_keeps_round_and_clock(st: State, t: Ticket, caller: AccountId)
    ensures
        register_effect(st, t, caller).last_drawing == st.last_drawing,
        register_effect(st, t, caller).round == st.round,
        register_effect(st, t, caller).winner_ticket == st.winner_ticket,
        register_effect(st, t, caller).last_jackpot == st.last_jackpot,
        register_effect(st, t, caller).last_pot_per_ticket == st.last_pot_per_ticket,
        register_effect(st, t, caller).payouts == st.payouts,
{
}

/// A draw whose derived winning ticket has no registered participant in the
/// current round records the winning ticket and the drawing time but leaves
/// everything else — pool, round, last jackpot, registry, outboxes — as it
/// was.
pub proof fn lemma_draw_without_winner(st: State, wt: Ticket, now: u32)
    requires
        filled_count(participants_of(st, wt, st.round)) == 0,
    ensures
        draw_effect(st, wt, now) == (State {
            winner_ticket: wt,
            last_drawing: now,
            ..st
        }),
        draw_effect(st, wt, now).jackpot == st.jackpot,
        draw_effect(st, wt, now).round == st.round,
        draw_effect(st, wt, now).last_jackpot == st.last_jackpot,
{
}

/// The per-winner payout never exceeds the pool it is drawn from.
pub proof fn lemma_payout_le_pool(pool: u128, n: nat)
    requires
        1 <= n <= 8,
    ensures
        0 <= payout_per_winner(pool, n) <= pool,
{
    let q = pool as int / 8;
    let m = 8int / n as int;
    assert(0 <= q);
    assert(0 <= m <= 8);
    assert(q * m <= q * 8) by (nonlinear_arith)
        requires
            0 <= q && 0 <= m <= 8,
    ;
    assert(8 * q <= pool) by {
        vstd::arithmetic::div_mod::lemma_fundamental_div_mod(pool as int, 8);
    }
}

/// What the winners of a closed round are owed, in total, never exceeds the
/// pool that was split: `n` payouts of `(pool / 8) * (8 / n)` each sum to at
/// most `pool`. The shortfall of the truncating divisions stays in the
/// engine.
pub proof fn lemma_payout_total_within_pool(pool: u128, n: nat)
    requires
        1 <= n <= 8,
    ensures
        0 <= payout_per_winner(pool, n),
        n * payout_per_winner(pool, n) <= pool,
{
    let q = pool as int / 8;
    let m = 8int / n as int;
    assert(0 <= q);
    vstd::arithmetic::div_mod::lemma_fundamental_div_mod(8int, n as int);
    assert(n * m <= 8);
    assert(n * (q * m) <= 8 * q) by (nonlinear_arith)
        requires
            0 <= q && 0 <= m && 1 <= n && n * m <= 8,
    ;
    assert(8 * q <= pool) by {
        vstd::arithmetic::div_mod::lemma_fundamental_div_mod(pool as int, 8);
    }
}

/// A winner-bearing draw — positive pool, at least one occupied winner
/// slot — closes the round and is the only thing that ever moves the round
/// counter: it advances by exactly one, and never decreases.
pub proof fn lemma_round_advances_only_on_winners(st: State, wt: Ticket, now: u32)
    requires
        st.round < u8::MAX,
    ensures
        draw_effect(st, wt, now).round >= st.round,
        st.jackpot > 0 && filled_count(participants_of(st, wt, st.round)) > 0 <==> draw_effect(
            st,
            wt,
            now,
        ).round == st.round + 1,
        !(st.jackpot > 0 && filled_count(participants_of(st, wt, st.round)) > 0) ==> draw_effect(
            st,
            wt,
            now,
        ) == (State {
            winner_ticket: wt,
            last_drawing: now,
            ..st
        }),
{
}

/// A winner-bearing draw records the split it performed: the pool is
/// snapshotted as the last jackpot and drained, and one payout per occupied
/// winner slot, each for the recorded per-winner amount, is appended to the
/// payout outbox in slot order.
pub proof fn lemma_winning_draw_pays_out(st: State, wt: Ticket, now: u32)
    requires
        state_wf(st),
        st.jackpot > 0,
        filled_count(participants_of(st, wt, st.round)) > 0,
    ensures
        draw_effect(st, wt, now).jackpot == 0,
        draw_effect(st, wt, now).last_jackpot == st.jackpot,
        draw_effect(st, wt, now).last_pot_per_ticket == payout_per_winner(
            st.jackpot,
            filled_count(participants_of(st, wt, st.round)),
        ),
        draw_effect(st, wt, now).payouts.len() == st.payouts.len() + filled_count(
            participants_of(st, wt, st.round),
        ),
        forall|i: int|
            0 <= i < filled_count(participants_of(st, wt, st.round))
                ==> #[trigger] draw_effect(st, wt, now).payouts[st.payouts.len() + i] == (Payment {
                to: participants_of(st, wt, st.round)[i],
                amount: payout_per_winner(
                    st.jackpot,
                    filled_count(participants_of(st, wt, st.round)),
                ) as u128,
            }),
{
    let winners = participants_of(st, wt, st.round);
    let n = filled_count(winners);
    assert(slots_wf(winners)) by {
        lemma_empty_slots_wf();
    }
    crate::slots::lemma_filled_count_le_len(winners);
    lemma_payout_le_pool(st.jackpot, n);
}

/// The engine's initial state is well-formed, and every (ticket, round)
/// pair reads back as the all-empty slot array: nobody holds any ticket
/// before the first registration.
pub proof fn lemma_initial_state_empty(now: u32, t: Ticket, r: u8)
    ensures
        state_wf(initial_state(now)),
        participants_of(initial_state(now), t, r) == empty_slots(),
        initial_state(now).round == 0,
        initial_state(now).jackpot == 0,
{
    lemma_empty_slots_wf();
}

} // verus!
