//! Protocol core of an atomic swap between Bitcoin and Monero.
//!
//! A maker, who holds Monero, and a taker, who holds Bitcoin, trade without
//! trusting each other. Each side of a swap moves through a sequence of
//! states; what it observes on the two chains and hears from its peer decides
//! which state follows. [`protocol`] holds the states of both sides and the
//! rules that lead from one to the next, [`database`] the records in which a
//! swap is kept between runs and the store that holds them, [`network`] what
//! the swap decides about the messages between the peers, and [`asb`] the
//! configuration of the maker.
//!
//! The library does no input or output of its own and leaves cryptography,
//! the chains and the transport to its callers: it takes what they saw and
//! says what follows.

pub mod asb;
pub mod bitcoin;
pub mod database;
pub mod env;
pub mod monero;
pub mod network;
pub mod protocol;
pub mod tor;
