//! The rules of a learning platform's ledger: which requests on the platform's
//! records are accepted, what each one changes, and what reward or credential
//! it orders.
//!
//! The records are plain values: the platform's configuration, courses,
//! learner profiles and enrollments (`state`). Every request is a function
//! that takes the records it works on and the time, and either changes them
//! and hands back what is to be issued, or refuses and changes nothing
//! (`instructions`). Nothing here reads a clock, signs, or issues currency:
//! whoever runs a request supplies the time and the identities it has
//! authenticated, and carries out the orders.
//!
//! Underneath are a 256-slot bit set (`bitset`), the daily budget of
//! experience points and the streak of active days (`utils`).

pub mod bitset;
pub mod errors;
pub mod events;
pub mod instructions;
pub mod pubkey;
pub mod rewards;
pub mod state;
pub mod utils;
