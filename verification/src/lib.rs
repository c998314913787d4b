//! A robot that walks an unbounded integer grid, one order at a time.
//!
//! A text of orders is read letter by letter ([`OrderParserIterator`]); each letter is an
//! [`Order`] or an [`InvalidOrder`], and a [`Robot`] carries the orders out.

pub mod error;
pub mod order;
pub mod robot;

pub use error::InvalidOrder;
pub use order::{Order, OrderParserIterator};
pub use robot::{Orientation, Position, Robot, RobotState};
