//! A two-party atomic token-swap escrow.
//!
//! A poster deposits an asset into a custody account and records the amount of
//! a counter-asset they ask in return; a taker who supplies that amount may
//! claim the custodied asset; the poster may cancel an open trade and recover
//! custody. Every transition is a pure function from the supplied accounts to
//! either a complete set of effects or a typed failure; the hosting ledger
//! applies the whole set atomically or none of it.

mod accounts;
mod authority;
mod client;
mod effects;
mod error;
mod identity;
mod instruction;
mod laws;
mod processor;
mod state;
mod token;
mod world;

pub use accounts::{
    bind_cancel, bind_post, bind_take, cancel_bind_fault, post_bind_fault, take_bind_fault,
    AccountView, CancelRoles, PostRoles, TakeRoles,
};
pub use authority::{
    custody_authority, derived_authority, escrow_seed, spec_escrow_seed, Authority,
};
pub use client::{
    cancel_trade_instruction, post_trade_instruction, role_is, take_trade_instruction, AccountRole,
    Request,
};
pub use effects::{Effects, RecordClose, RecordWrite, TokenOp};
pub use error::{Error, Fault};
pub use identity::Identity;
pub use instruction::{lemma_instruction_canonical, lemma_instruction_round_trip, Instruction};
pub use laws::{
    lemma_cancel_closed_record_fails, lemma_cancel_requires_poster, lemma_cancel_settlement,
    lemma_post_already_open_fails, lemma_post_delegates_custody, lemma_take_amount_mutation_fails,
    lemma_take_amounts_pinned, lemma_take_closed_record_fails, lemma_take_settlement,
};
pub use processor::{
    cancel_effects_ok, cancel_fault, post_effects_ok, post_fault, posted_record_layout, process,
    process_cancel, process_effects_ok, process_fault, process_post, process_take, take_effects_ok,
    take_fault,
};
pub use state::{
    lemma_record_canonical, lemma_record_round_trip, lemma_record_unique, Escrow, RECORD_LEN,
};
pub use token::token_contents;
pub use world::{
    apply_effects, apply_record_close, apply_record_write, apply_token_op, apply_token_ops,
    TokenState, WorldView,
};
