//! Link shortening behind username/password accounts: signed session tokens
//! with refresh-token rotation, a request guard, and short-code allocation.
use vstd::prelude::*;

pub mod account;
pub mod clock;
pub mod error;
pub mod guard;
pub mod links;
pub mod response;
pub mod session;
pub mod token;
