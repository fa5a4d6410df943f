use vstd::prelude::*;

verus! {

/// A ticket identifier: a fixed three-byte value chosen by the participant,
/// compared by exact byte equality.
#[derive(Clone, Copy, PartialEq, Eq, Structural, Debug)]
pub struct Ticket {
    pub b0: u8,
    pub b1: u8,
    pub b2: u8,
}

impl Ticket {
    pub fn new(b0: u8, b1: u8, b2: u8) -> (r: Ticket)
        ensures
            r == (Ticket { b0, b1, b2 }),
    {
        Ticket { b0, b1, b2 }
    }

    /// The all-zero ticket, the initial value of the winning identifier.
    pub open spec fn spec_zero() -> Ticket {
        Ticket { b0: 0, b1: 0, b2: 0 }
    }

    pub fn zero() -> (r: Ticket)
        ensures
            r == Ticket::spec_zero(),
    {
        Ticket { b0: 0, b1: 0, b2: 0 }
    }
}

/// The registry key standing for a (ticket, round) pair: the three ticket
/// bytes and the round number packed base-256 into one 32-bit integer.
/// Packing is a bijection, so distinct pairs never collide.
pub open spec fn ticket_key(t: Ticket, round: u8) -> u32 {
    ((t.b0 as u32) * 0x100_0000 + (t.b1 as u32) * 0x1_0000 + (t.b2 as u32) * 0x100 + (
    round as u32)) as u32
}

/// Packs a (ticket, round) pair into its registry key.
pub fn compute_ticket_key(t: Ticket, round: u8) -> (k: u32)
    ensures
        k == ticket_key(t, round),
{
    (t.b0 as u32) * 0x100_0000 + (t.b1 as u32) * 0x1_0000 + (t.b2 as u32) * 0x100 + (round as u32)
}

/// Packing a (ticket, round) pair into a key is injective: equal keys come
/// from equal pairs.
pub proof fn lemma_ticket_key_injective(t1: Ticket, r1: u8, t2: Ticket, r2: u8)
    requires
        ticket_key(t1, r1) == ticket_key(t2, r2),
    ensures
        t1 == t2 && r1 == r2,
{
    let a0 = t1.b0 as u32;
    let a1 = t1.b1 as u32;
    let a2 = t1.b2 as u32;
    let a3 = r1 as u32;
    let b0 = t2.b0 as u32;
    let b1 = t2.b1 as u32;
    let b2 = t2.b2 as u32;
    let b3 = r2 as u32;
    assert(a0 * 0x100_0000 + a1 * 0x1_0000 + a2 * 0x100 + a3 == b0 * 0x100_0000 + b1 * 0x1_0000
        + b2 * 0x100 + b3 ==> a0 == b0 && a1 == b1 && a2 == b2 && a3 == b3) by (bit_vector)
        requires
            a0 < 256 && a1 < 256 && a2 < 256 && a3 < 256,
            b0 < 256 && b1 < 256 && b2 < 256 && b3 < 256,
    ;
}

} // verus!
