//! The contract between a blockchain node and a pluggable consensus mechanism.
//!
//! - `engine`: the interface that a mechanism implements, with its defaults.
//! - `pipeline`: the four verification phases of an incoming header, in order.
//! - `seal`: what sealing produced, and what may enter the chain.
//! - `epoch`: signals of a change of the authority set, transitions waiting
//!   for finality, and the verifier of the next epoch.
//! - `codec`: the byte format in which pending transitions are persisted.
//! - `error`, `machine`, `primitives`: the types that the rest is stated over.

pub mod codec;
pub mod engine;
pub mod epoch;
pub mod error;
pub mod machine;
pub mod pipeline;
pub mod primitives;
pub mod seal;
