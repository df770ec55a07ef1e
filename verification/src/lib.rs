//! A two-party conditional asset swap. One party deposits an asset and
//! records what it asks for in return; another party pays what is asked and
//! receives the deposit. This library is what the escrow program decides:
//! given the accounts and the payload of a call, which failure it answers
//! with, what it writes, and which requests it sends to the token ledger.
//!
//! The library sends nothing itself. A handler answers with a [`Step`]: the
//! next request and the stage at which to resume with the ledger's reply.
//! The host, which has the accounts of the runtime, sends the request.
//!
//! [`Step`]: processor::Step

pub mod account;
pub mod address;
pub mod authority;
pub mod error;
pub mod instruction;
pub mod processor;
pub mod protocol;
pub mod rent;
pub mod state;
pub mod token;
