//! Transition handler of a wager ledger: account holders place bets on an
//! event's outcome and, once the event is complete, collect their stake back
//! if they picked the winning option.
//!
//! The handler decides on plain values. Its caller reads the event and the
//! account's record from the ledger, hands them over, and persists what the
//! handler committed.

pub mod handler;
pub mod laws;
pub mod model;
pub mod rules;

pub use handler::{
    bet_on_event, check_collect_winnings, check_event, check_place_bet, collect_winnings, place_bet,
    same_bytes, validate_instruction,
};
pub use model::{
    Bet, BetError, BetStatus, Event, EventStatus, Instruction, InstructionType, EVENT_ID_LEN,
};
