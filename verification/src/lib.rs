//! Circuit gadgets for shielded notes: the values of a private transaction as
//! circuit variables, and the derivations that a proof of a state transition
//! has to repeat inside the circuit (note commitment, nullifier, randomized
//! spend authorization key). Beside them, the configuration of the custodians
//! who hold a spend key together.
//!
//! `backend` and `frost` hold every call into another crate, each behind a
//! contract that is taken on trust; the other modules are proved against
//! those contracts.

pub mod auth;
pub mod backend;
pub mod circuit;
pub mod custody;
pub mod derive;
pub mod error;
pub mod field;
pub mod frost;
pub mod gadgets;
pub mod laws;
pub mod mode;
pub mod note;
pub mod separator;
