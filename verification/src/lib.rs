//! Historical epoch randomness.
//!
//! The library keeps a ledger of the randomness of every epoch that ended,
//! filled at session boundaries by a decorator over a session manager, and
//! serves the live, the upcoming and the historical randomness to callers.
//!
//! Epoch randomness can be influenced by a validator in the short term: what
//! this library hands out is public-coin randomness, never a secret, and is
//! not fit for gambling.

pub mod epoch;
pub mod ledger;
pub mod module;
pub mod session;
pub mod laws;

pub use epoch::{BabeRandomness, Config, Epoch, Randomness};
pub use ledger::HistoricalRandomness;
pub use module::Module;
pub use session::{NoteHistoricalRandomness, SessionIndex, SessionManager};
