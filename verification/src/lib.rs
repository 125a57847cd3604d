//! Small building blocks for working with text and basic control flow.
//!
//! * [`branches`] chooses between two outcomes, counts up to a bound and
//!   numbers the elements of a sequence.
//! * [`guessing_game`] judges what one attempt to read a line has brought.
//! * [`references`] reads and extends a text buffer through shared and
//!   exclusive borrows.

pub mod branches;
pub mod guessing_game;
pub mod references;
