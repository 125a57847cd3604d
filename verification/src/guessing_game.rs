//! Deciding what one attempt to read a line of input has brought.
//!
//! Reading is left to the caller. What it hands over is judged here: either
//! a line was captured, kept exactly as it was read, or there is a reason why
//! none was.

use vstd::prelude::*;

verus! {

/// Why no line was captured.
#[derive(Clone, Copy, Debug, PartialEq, Eq)]
pub enum ReadError {
    /// The read itself did not complete: the stream broke, or what it gave
    /// was not text.
    Failed,
    /// The stream was closed before it gave a single character.
    Closed,
}

/// What one attempt to read a line amounts to.
///
/// `read` is `None` where the read did not complete, and otherwise holds
/// everything that was read. Text of no characters means that the stream had
/// already ended. Any other text is the captured line, as it stands.
pub open spec fn spec_capture_line(read: Option<String>) -> Result<String, ReadError> {
    match read {
        None => Err(ReadError::Failed),
        Some(line) => if line@.len() == 0 {
            Err(ReadError::Closed)
        } else {
            Ok(line)
        },
    }
}

/// Judges one attempt to read a line.
///
/// A line is captured as it was read, with its line ending if it came with
/// one: nothing is trimmed. A read that did not complete, and a stream that
/// had already ended, are reported as errors for the caller to act on.
pub fn capture_line(read: Option<String>) -> (captured: Result<String, ReadError>)
    ensures
        captured == spec_capture_line(read),
{
    match read {
        None => Err(ReadError::Failed),
        Some(line) => {
            if line.as_str().is_empty() {
                Err(ReadError::Closed)
            } else {
                Ok(line)
            }
        },
    }
}

} // verus!
