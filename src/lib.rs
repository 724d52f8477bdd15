//! Connection lifecycle and message relay between a callback-driven cloud
//! transport and a channel-based application.
//!
//! The decisions of the run loop stand in [`manager`] as a state machine:
//! the embedding code performs each [`manager::Action`] it hands out and
//! feeds the outcome back as a [`manager::Event`].

pub mod adapter;
pub mod manager;
pub mod message;
pub mod trace;
