//! A milestone-gated crowdfunding escrow engine.
//!
//! Project owners register funding goals broken into milestones; investors
//! contribute funds that are held in custody by the host; a single verifier
//! releases milestone-sized payouts only after evidence has been submitted
//! and approved.  This crate holds the project/milestone state machine and
//! its accounting invariants; durable storage, signature checking, value
//! custody and the clock belong to the host that drives it.

pub mod accounting;
pub mod engine;
pub mod laws;
pub mod model;
