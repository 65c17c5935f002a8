//! A lottery with a sale window, numbered tickets, a winner drawn from an
//! oracle's randomness and a pool paid out to the holder of the winning
//! ticket.
//!
//! [`state`] holds the record of a lottery and [`model`] the rules as
//! mathematics; [`instructions`] holds the operations, each proved to follow
//! the rules, and [`laws`] what follows from the rules for every run of
//! operations. [`oracle`] is the only place that calls outside code.

pub mod error;
pub mod instructions;
pub mod key;
pub mod laws;
pub mod model;
pub mod oracle;
pub mod registry;
pub mod state;
pub mod ticket;

pub use error::ErrorCode;
pub use instructions::{
    buy_ticket, choose_a_winner, claim_prize, commit_a_winner, initialize_config,
    initialize_lottery, BuyTicket, ChooseWinner, ClaimPrize, Collection, CommitWinner,
    InitializeConfig, InitializeLottery, TicketMetadata, TicketOrder,
};
pub use key::Key;
pub use oracle::RandomnessData;
pub use registry::MintRequest;
pub use state::TokenLottery;
pub use ticket::{is_ticket_name, ticket_name_of, NAME, SYMBOL, URI};
