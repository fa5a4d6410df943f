use vstd::prelude::*;
use crate::account::AccountId;
use crate::ticket::Ticket;

verus! {

/// Notification emitted whenever a new ticket is registered.
///
/// The engine appends one of these to its event outbox per successful
/// registration; the host drains the outbox and delivers the notifications to
/// its event sink (fire-and-forget, no acknowledgement).
#[derive(Clone, Copy, PartialEq, Eq, Structural, Debug)]
pub struct RegisterTicket {
    pub ticket: Ticket,
    pub from: AccountId,
}

/// A value transfer the engine asks the ledger to perform.
///
/// The engine appends one of these to its payout outbox per winner when a
/// round closes; the host drains the outbox and hands each entry to the
/// ledger. Transfer failures are observed and ignored by the engine, never
/// retried and never rolled back.
#[derive(Clone, Copy, PartialEq, Eq, Structural, Debug)]
pub struct Payment {
    pub to: AccountId,
    pub amount: u128,
}

} // verus!
