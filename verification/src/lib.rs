//! A deterministic, stateless decision-and-randomness engine for best-of-N
//! Rock-Paper-Scissors played across a trust boundary.
//!
//! Every call is a pure function of its arguments, so any two parties that recompute an
//! answer agree on it bit for bit. Nothing here is unpredictable in the cryptographic
//! sense, and nothing is meant to be: all entropy comes from public values.
//!
//! The engine is made of five parts. [`mixer`] turns seeds into well-spread 256-bit
//! integers. [`selector`] picks the computer's move from that entropy and the player's
//! recent moves. [`resolver`] tells who won a round. [`tournament`] draws the number of
//! rounds and names the champion. [`betting`] advises a stake. On top of them, [`ai`] and
//! [`oracle`] offer the calls of the computer opponent and of the randomness oracle.
//!
//! Where the design leaves a choice, this engine makes the following one:
//! - the entropy of moves, round counts and ranged numbers comes from the caller's seeds
//!   alone; only a fresh seed is drawn from block time and block height;
//! - the computer counters the player's last move on 4 rolls out of 10, and a repeated
//!   move on rolls below 3;
//! - a tournament has between 1 and 10 rounds, so it can end without a champion;
//! - a ranged number on a zero range is zero.
//!
//! All integers are [`word::Word`]s. Their arithmetic is done by `ruint`, behind the
//! contracts in [`arith`]; everything built on it is proved.

pub mod ai;
pub mod arith;
pub mod betting;
pub mod error;
pub mod mixer;
pub mod moves;
pub mod oracle;
pub mod resolver;
pub mod selector;
pub mod tournament;
pub mod word;
