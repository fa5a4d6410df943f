//! A round-based, prize-pooled lottery engine.
//!
//! Participants buy a fixed-price ticket (a short byte identifier) during an
//! open round. Once the round's time window has elapsed, the next registration
//! triggers a draw: a winning identifier is derived from a random block
//! supplied by an external oracle, and the accumulated pool is split among the
//! holders of the winning ticket, after which a new round begins.
//!
//! The engine itself is pure state-machine logic and is fully verified. Its
//! external collaborators — the ledger that moves funds, the randomness
//! oracle, the clock and the event sink — are modelled at the boundary:
//! the clock and the payer's identity and payment enter as plain arguments,
//! the oracle enters through the [`oracle::FetchRandom`] trait, and outgoing
//! notifications and transfers leave through outboxes that the host drains.

pub mod account;
pub mod engine;
pub mod laws;
pub mod events;
pub mod oracle;
pub mod slots;
pub mod state;
pub mod ticket;
