//! Sageturner deploys a user-supplied inference artifact to a managed
//! model-serving platform in one command.  This crate is the verified
//! core of that pipeline: configuration validation, the naming and
//! override rules for shared resources, and the deployment state machine
//! that sequences every remote call.  The unverified binary around it
//! performs the calls the machine asks for and feeds their outcomes back
//! as events.

pub mod config;
pub mod container;
pub mod deploy;
pub mod errors;
pub mod provision;
pub mod pyserve;
pub mod registry;
pub mod text;
