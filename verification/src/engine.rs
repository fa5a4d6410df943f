use vstd::prelude::*;
use std::collections::HashMap;
use crate::account::AccountId;
use crate::laws::lemma_payout_le_pool;
use crate::events::{Payment, RegisterTicket};
use crate::oracle::{FetchRandom, RandomReadErr};
use crate::slots::{
    copy_slots, count_filled, empty_slots, fill_first_empty, filled_count, lemma_packed_filled,
    new_empty_slots, slots_wf,
};
use crate::state::{
    draw_due, draw_effect, initial_state, participants_of, payments_to, payout_effect,
    register_effect, sold_out, state_wf, winning_ticket_of, State, BET_PRICE, BLOCKS_PER_ROUND,
};
use crate::ticket::{compute_ticket_key, lemma_ticket_key_injective, ticket_key, Ticket};

verus! {

broadcast use vstd::std_specs::hash::group_hash_axioms;

/// Errors a registration can end with. Every error aborts the call: no slot
/// is taken, no payment is kept, nothing else changes.
#[derive(Clone, Copy, PartialEq, Eq, Structural, Debug)]
pub enum Error {
    /// The ticket's eight slots for the current round are all occupied.
    TicketAlreadyExists,
    /// The payment does not equal the fixed ticket price exactly.
    TicketCosts,
    /// A draw was due but the randomness oracle failed.
    RandomUnavailable,
}

/// The registry as an abstract map from (ticket, round) pairs to slot
/// arrays, recovered from the packed-key table.
pub open spec fn registry_view(m: Map<u32, Vec<AccountId>>) -> Map<(Ticket, u8), Seq<AccountId>> {
    Map::new(
        |p: (Ticket, u8)| m.contains_key(ticket_key(p.0, p.1)),
        |p: (Ticket, u8)| m[ticket_key(p.0, p.1)]@,
    )
}

/// Inserting under a packed key is, abstractly, inserting under the
/// (ticket, round) pair, because packing is injective.
proof fn lemma_registry_view_insert(
    m: Map<u32, Vec<AccountId>>,
    t: Ticket,
    r: u8,
    v: Vec<AccountId>,
)
    ensures
        registry_view(m.insert(ticket_key(t, r), v)) =~= registry_view(m).insert((t, r), v@),
{
    let lhs = registry_view(m.insert(ticket_key(t, r), v));
    let rhs = registry_view(m).insert((t, r), v@);
    assert forall|p: (Ticket, u8)| lhs.contains_key(p) implies rhs.contains_key(p) && lhs[p]
        == rhs[p] by {
        if ticket_key(p.0, p.1) == ticket_key(t, r) {
            lemma_ticket_key_injective(p.0, p.1, t, r);
        }
    }
    assert forall|p: (Ticket, u8)| rhs.contains_key(p) implies lhs.contains_key(p) by {
        if ticket_key(p.0, p.1) == ticket_key(t, r) {
            lemma_ticket_key_injective(p.0, p.1, t, r);
        }
    }
}

/// The lottery engine: one explicitly owned instance holds all state and is
/// mutated only through registration and draw operations.
pub struct Lottery {
    pub registry: HashMap<u32, Vec<AccountId>>,
    pub round: u8,
    pub last_drawing: u32,
    pub jackpot: u128,
    pub winner_ticket: Ticket,
    pub last_jackpot: u128,
    pub last_pot_per_ticket: u128,
    pub events: Vec<RegisterTicket>,
    pub payouts: Vec<Payment>,
}

impl View for Lottery {
    type V = State;

    open spec fn view(&self) -> State {
        State {
            registry: registry_view(self.registry@),
            round: self.round,
            last_drawing: self.last_drawing,
            jackpot: self.jackpot,
            winner_ticket: self.winner_ticket,
            last_jackpot: self.last_jackpot,
            last_pot_per_ticket: self.last_pot_per_ticket,
            events: self.events@,
            payouts: self.payouts@,
        }
    }
}

impl Lottery {
    /// Every slot array held in the registry is well-formed.
    pub open spec fn wf(&self) -> bool {
        state_wf(self@)
    }

    /// Creates the engine: round zero, empty pool, zero winning ticket, and
    /// `now` — the creation time — as the last drawing time.
    pub fn new(now: u32) -> (r: Lottery)
        ensures
            r@ == initial_state(now),
            r.wf(),
    {
        let mut registry: HashMap<u32, Vec<AccountId>> = HashMap::new();
        registry.insert(compute_ticket_key(Ticket::zero(), 0), new_empty_slots());
        let r = Lottery {
            registry,
            round: 0,
            last_drawing: now,
            jackpot: 0,
            winner_ticket: Ticket::zero(),
            last_jackpot: 0,
            last_pot_per_ticket: 0,
            events: Vec::new(),
            payouts: Vec::new(),
        };
        proof {
            lemma_registry_view_insert(
                Map::<u32, Vec<AccountId>>::empty(),
                Ticket::spec_zero(),
                0,
                r.registry@[ticket_key(Ticket::spec_zero(), 0)],
            );
            assert(registry_view(Map::<u32, Vec<AccountId>>::empty()) =~= Map::<
                (Ticket, u8),
                Seq<AccountId>,
            >::empty());
            assert(r@ =~= initial_state(now));
        }
        r
    }

    /// Looks up the slot array stored for `ticket` in round `round`, or the
    /// all-empty one when the pair was never registered.
    fn lookup_slots(&self, ticket: Ticket, round: u8) -> (v: Vec<AccountId>)
        requires
            self.wf(),
        ensures
            v@ == participants_of(self@, ticket, round),
            slots_wf(v@),
    {
        let k = compute_ticket_key(ticket, round);
        let r = match self.registry.get(&k) {
            Some(stored) => copy_slots(stored),
            None => new_empty_slots(),
        };
        proof {
            if self@.registry.contains_key((ticket, round)) {
                assert(slots_wf(self@.registry[(ticket, round)]));
            }
        }
        r
    }

    /// Registers `ticket` with `caller` as owner.
    ///
    /// `transferred` is the payment the ledger moved for this call, `now` the
    /// current time-step. The payment must equal the ticket price exactly and
    /// the ticket must not be sold out, else the call fails and changes
    /// nothing. On success the caller takes the ticket's first empty slot and
    /// the pool grows by the price; if the round's window has elapsed, the
    /// same call then draws a winning ticket from the oracle's random block.
    /// An unavailable oracle aborts the whole call, changing nothing.
    pub fn register_ticket<R: FetchRandom>(
        &mut self,
        ticket: Ticket,
        caller: AccountId,
        transferred: u128,
        now: u32,
        oracle: &mut R,
    ) -> (r: Result<(), Error>)
        requires
            old(self).wf(),
            !caller.spec_is_empty(),
            now >= old(self).last_drawing,
            old(self).jackpot <= u128::MAX - BET_PRICE,
            old(self).round < u8::MAX,
        ensures
            final(self).wf(),
            transferred != BET_PRICE ==> r == Err::<(), Error>(Error::TicketCosts) && *final(self)
                == *old(self),
            transferred == BET_PRICE && sold_out(old(self)@, ticket) ==> r == Err::<(), Error>(
                Error::TicketAlreadyExists,
            ) && *final(self) == *old(self),
            transferred == BET_PRICE && !sold_out(old(self)@, ticket) && !draw_due(old(self)@, now)
                ==> r == Ok::<(), Error>(()) && final(self)@ == register_effect(
                old(self)@,
                ticket,
                caller,
            ),
            transferred == BET_PRICE && !sold_out(old(self)@, ticket) && draw_due(old(self)@, now)
                ==> (match r {
                Ok(_) => final(self)@ == draw_effect(
                    register_effect(old(self)@, ticket, caller),
                    final(self)@.winner_ticket,
                    now,
                ),
                Err(e) => e == Error::RandomUnavailable && *final(self) == *old(self),
            }),
    {
        if transferred != BET_PRICE {
            return Err(Error::TicketCosts);
        }
        let due = now - self.last_drawing >= BLOCKS_PER_ROUND && now != 0;
        let slots = self.lookup_slots(ticket, self.round);
        let n = count_filled(&slots);
        if n >= 8 {
            return Err(Error::TicketAlreadyExists);
        }
        // A due draw needs the oracle's random block; fetch it before any
        // state change, so an unavailable oracle aborts the whole call.
        let block = if due {
            match oracle.fetch_random() {
                Ok(b) => Some(b),
                Err(_) => {
                    return Err(Error::RandomUnavailable);
                },
            }
        } else {
            None
        };
        let ghost pre = self@;
        self.jackpot = self.jackpot + transferred;
        let filled = fill_first_empty(slots, caller);
        let k = compute_ticket_key(ticket, self.round);
        proof {
            lemma_registry_view_insert(self.registry@, ticket, self.round, filled);
        }
        self.registry.insert(k, filled);
        self.events.push(RegisterTicket { ticket, from: caller });
        proof {
            let mid = register_effect(pre, ticket, caller);
            assert(self@.registry =~= mid.registry);
            assert(self@ =~= mid);
            assert forall|p: (Ticket, u8)| #[trigger] self@.registry.contains_key(p) implies
                slots_wf(self@.registry[p]) by {
                if p != (ticket, pre.round) {
                    assert(pre.registry.contains_key(p));
                    assert(self@.registry[p] == pre.registry[p]);
                }
            }
        }
        match block {
            Some(b) => {
                self.draw_from_block(b, now);
                proof {
                    assert(self@ == draw_effect(
                        register_effect(old(self)@, ticket, caller),
                        winning_ticket_of(b@),
                        now,
                    ));
                }
            },
            None => {},
        }
        Ok(())
    }

    /// Draws using a random block requested from the oracle at time-step
    /// `now`. Fails, changing nothing, when the oracle is unavailable.
    pub fn draw<R: FetchRandom>(&mut self, now: u32, oracle: &mut R) -> (r: Result<
        (),
        RandomReadErr,
    >)
        requires
            old(self).wf(),
            old(self).round < u8::MAX,
        ensures
            final(self).wf(),
            (match r {
                Ok(_) => final(self)@ == draw_effect(old(self)@, final(self)@.winner_ticket, now),
                Err(e) => e == RandomReadErr::FailGetRandomSource && *final(self) == *old(self),
            }),
    {
        match oracle.fetch_random() {
            Ok(b) => {
                self.draw_from_block(b, now);
                proof {
                    let wt = winning_ticket_of(b@);
                    assert(self@ == draw_effect(old(self)@, wt, now));
                }
                Ok(())
            },
            Err(e) => Err(e),
        }
    }

    /// Draws with a given random block at time-step `now`: derives the
    /// winning ticket from the block's first three bytes, records it and the
    /// drawing time, and pays out the winning ticket's current-round holders,
    /// if there are any and the pool is not empty.
    pub fn draw_from_block(&mut self, block: [u8; 32], now: u32)
        requires
            old(self).wf(),
            old(self).round < u8::MAX,
        ensures
            final(self).wf(),
            final(self)@ == draw_effect(old(self)@, winning_ticket_of(block@), now),
    {
        let win_ticket = Ticket::new(block[0], block[1], block[2]);
        self.winner_ticket = win_ticket;
        self.last_drawing = now;
        proof {
            assert(self@.registry == old(self)@.registry);
            assert(self@ =~= (State {
                winner_ticket: winning_ticket_of(block@),
                last_drawing: now,
                ..old(self)@
            }));
            assert(self.wf());
        }
        let winners = self.get_winner_or_default();
        proof {
            assert(winners@ == participants_of(
                old(self)@,
                winning_ticket_of(block@),
                old(self)@.round,
            ));
        }
        self.transfer_to_winners(winners);
    }

    /// Splits the pool among the occupied slots of `winners` and closes the
    /// round. With an empty pool or no occupied slot this is a no-op; the
    /// round stays open and nothing changes.
    pub fn transfer_to_winners(&mut self, winners: Vec<AccountId>)
        requires
            old(self).wf(),
            slots_wf(winners@),
            old(self).round < u8::MAX,
        ensures
            final(self).wf(),
            final(self)@ == payout_effect(old(self)@, winners@),
    {
        if self.jackpot > 0 {
            let number_of_winners = self.get_number_of_winner(&winners);
            let jackpot_balance: u128 = self.jackpot / 8;
            if number_of_winners > 0 {
                proof {
                    lemma_payout_le_pool(self.jackpot, filled_count(winners@));
                    lemma_packed_filled(winners@);
                }
                let jack_multiplication: u128 = 8 / (number_of_winners as u128);
                let amount: u128 = jackpot_balance * jack_multiplication;
                self.last_pot_per_ticket = amount;
                let mut owed: Vec<Payment> = Vec::new();
                proof {
                    assert(owed@ =~= payments_to(winners@, 0nat, amount));
                }
                let mut i: u8 = 0;
                while i < number_of_winners
                    invariant
                        i <= number_of_winners,
                        number_of_winners <= 8,
                        number_of_winners as nat == filled_count(winners@),
                        slots_wf(winners@),
                        forall|j: int|
                            0 <= j < winners@.len() ==> (!(#[trigger] winners@[j]).spec_is_empty()
                                <==> j < number_of_winners),
                        owed@ == payments_to(winners@, i as nat, amount),
                    decreases number_of_winners - i,
                {
                    let winner_id = winners[i as usize];
                    if !winner_id.is_empty() {
                        owed.push(Payment { to: winner_id, amount });
                    }
                    proof {
                        assert(owed@ =~= payments_to(winners@, (i + 1) as nat, amount));
                    }
                    i = i + 1;
                }
                self.payouts.append(&mut owed);
                self.reset_game();
                proof {
                    assert(self@ =~= payout_effect(old(self)@, winners@));
                }
            }
        }
    }

    /// Counts the occupied slots among the winners, scanning all eight.
    fn get_number_of_winner(&self, winners: &Vec<AccountId>) -> (n: u8)
        requires
            winners@.len() == 8,
        ensures
            n as nat == filled_count(winners@),
            n <= 8,
    {
        count_filled(winners)
    }

    /// Closes the current round: advances the round counter by one, records
    /// the pool as the last jackpot and drains it.
    pub fn reset_game(&mut self)
        requires
            old(self).wf(),
            old(self).round < u8::MAX,
        ensures
            final(self).wf(),
            final(self)@ == (State {
                round: (old(self)@.round + 1) as u8,
                last_jackpot: old(self)@.jackpot,
                jackpot: 0,
                ..old(self)@
            }),
    {
        self.round = self.round + 1;
        self.last_jackpot = self.jackpot;
        self.jackpot = 0;
        proof {
            assert(self@ =~= (State {
                round: (old(self)@.round + 1) as u8,
                last_jackpot: old(self)@.jackpot,
                jackpot: 0,
                ..old(self)@
            }));
        }
    }

    /// The participant slots of the current winning ticket in the current
    /// round, or the all-empty array when nobody holds it.
    pub fn get_winner_or_default(&self) -> (r: Vec<AccountId>)
        requires
            self.wf(),
        ensures
            r@ == participants_of(self@, self@.winner_ticket, self@.round),
            slots_wf(r@),
    {
        self.lookup_slots(self.winner_ticket, self.round)
    }

    /// The winning ticket of the most recent draw.
    pub fn get_winner_ticket(&self) -> (r: Ticket)
        ensures
            r == self@.winner_ticket,
    {
        self.winner_ticket
    }

    /// The participant slots registered for `ticket_hash` in the current
    /// round; all-empty when the ticket was never registered in it.
    pub fn get_accounts_by_ticket(&self, ticket_hash: Ticket) -> (r: Vec<AccountId>)
        requires
            self.wf(),
        ensures
            r@ == participants_of(self@, ticket_hash, self@.round),
            slots_wf(r@),
    {
        self.lookup_slots(ticket_hash, self.round)
    }

    /// The pool accumulated in the currently open round.
    pub fn get_jackpot(&self) -> (r: u128)
        ensures
            r == self@.jackpot,
    {
        self.jackpot
    }

    /// The time-step of the most recent draw.
    pub fn get_last_drawing(&self) -> (r: u32)
        ensures
            r == self@.last_drawing,
    {
        self.last_drawing
    }

    /// The pool with which the last closed round ended.
    pub fn get_last_jackpot(&self) -> (r: u128)
        ensures
            r == self@.last_jackpot,
    {
        self.last_jackpot
    }

    /// The winners of the previous round: the slots of the winning ticket in
    /// the round before the current one. All-empty in round zero, which has
    /// no previous round.
    pub fn get_last_winner_or_default(&self) -> (r: Vec<AccountId>)
        requires
            self.wf(),
        ensures
            r@ == (if self@.round == 0 {
                empty_slots()
            } else {
                participants_of(self@, self@.winner_ticket, (self@.round - 1) as u8)
            }),
            slots_wf(r@),
    {
        if self.round == 0 {
            new_empty_slots()
        } else {
            self.lookup_slots(self.winner_ticket, self.round - 1)
        }
    }

    /// The earliest time-step at which the next draw can be triggered.
    pub fn get_next_drawing(&self) -> (r: u32)
        requires
            self.last_drawing + BLOCKS_PER_ROUND <= u32::MAX,
        ensures
            r == self@.last_drawing + BLOCKS_PER_ROUND,
    {
        self.last_drawing + BLOCKS_PER_ROUND
    }

    /// The per-winner payout of the last closed round.
    pub fn get_last_pot_per_ticket(&self) -> (r: u128)
        ensures
            r == self@.last_pot_per_ticket,
    {
        self.last_pot_per_ticket
    }
}

impl Default for Lottery {
    /// A fresh engine created at the zero time-step.
    fn default() -> (r: Lottery)
        ensures
            r@ == initial_state(0),
            r.wf(),
    {
        Lottery::new(0)
    }
}


} // verus!
