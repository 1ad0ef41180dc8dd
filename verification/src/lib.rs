//! Bet resolution for a single-zero roulette table.
//!
//! The crate classifies a wheel outcome (parity, colour), validates the
//! shape of board-bound wagers (splits and trios), and computes what every
//! kind of wager pays against a winning number. Every executable function
//! carries a contract over the mathematical model of the table, and the
//! contracts are machine-checked.

pub mod board;
pub mod classifier;
pub mod coverage;
pub mod resolver;
pub mod round;
pub mod wager;
pub mod wheel;

pub use crate::board::{sort, valid_number, valid_split, valid_trio};
pub use crate::classifier::{number_odd_or_even, number_red_or_black, OddEven, RedBlack};
pub use crate::resolver::{
    basket_handler, column_handler, dozen_handler, high_pass_handler,
    low_pass_handler, odd_or_even_handler, red_or_black_handler, results_handler, single_handler,
    split_handler, trio_handler,
};
pub use crate::round::{settle_round, RoundSummary};
pub use crate::wager::{Bet, BetType, WagerError};
pub use crate::wheel::{spin, Wheel};
