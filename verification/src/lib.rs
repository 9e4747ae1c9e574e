//! An escrow-backed wagering engine: two parties lock equal stakes, an
//! oracle reports the outcome, and the winner claims the pot, of which a
//! fixed share is burned.
//!
//! The engine keeps no state of its own. Every operation takes the record
//! of one battle, the funds held in escrow against it and the ledger of
//! balances, and either carries the request out in full or rejects it and
//! leaves all three as they were.
//!
//! - [`identity`]: who the parties are.
//! - [`ledger`]: what each party holds.
//! - [`battle`]: the record of a battle and the rules it obeys.
//! - [`engine`]: the five operations.
//! - [`laws`]: what holds of every sequence of operations.

pub mod battle;
pub mod engine;
pub mod errors;
pub mod identity;
pub mod laws;
pub mod ledger;

pub use battle::{split_pot, valid_battle_id, Battle, BattleState, Config, Settlement};
pub use engine::{cancel_battle, claim_winnings, create_battle, join_battle, submit_battle_result};
pub use errors::ErrorCode;
pub use identity::Identity;
pub use ledger::Ledger;
