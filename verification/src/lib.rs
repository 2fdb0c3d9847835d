//! Session authentication for a bookstore service.
//!
//! The crate holds the decisions of the service: how a credential pair becomes
//! a signed session token, how a presented token becomes a resolved caller
//! identity, and which failure each rejected request is answered with. Reading
//! requests, talking to the credential store and writing responses are left to
//! the program around it, which hands plain values in and takes plain values
//! back.

pub mod catalog;
pub mod claims;
mod clock;
pub mod config;
pub mod credentials;
pub mod error;
pub mod gate;
pub mod password;
pub mod text;
pub mod token;
