//! Verified governance orchestration for a multi-party treasury vault.
//!
//! The library models a Squads-style multisig group on a ledger: deriving
//! the deterministic addresses of its accounts, decoding its on-chain
//! state, building the instructions of each governance action, sequencing
//! multi-transaction workflows, and dispatching inbound command messages
//! to those workflows. All ledger and broker I/O stays outside; the
//! workflows are state machines that hand an action to the caller and
//! take the outcome back as an event.

pub mod addr;
pub mod broker;
pub mod consumer;
pub mod dispatch;
pub mod error;
pub mod ix;
pub mod json;
pub mod laws;
pub mod message;
pub mod resolver;
pub mod responses;
pub mod schemas;
pub mod service;
pub mod state;
pub mod text;
pub mod tokens;
pub mod venture;
pub mod workflows;
