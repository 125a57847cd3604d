//! Choosing between two outcomes and running simple loops.

use vstd::prelude::*;

verus! {

/// Where a counting loop stopped and what it yielded on the way out.
#[derive(Clone, Copy, Debug, PartialEq, Eq)]
pub struct LoopOutcome {
    /// The counter when the loop was left.
    pub counter: i32,
    /// The value the loop yielded: twice the counter.
    pub result: i32,
}

/// Picks one of two fixed messages: the first where `number` is below
/// `threshold`, the second where it is not.
pub fn condition_message(number: i32, threshold: i32) -> (message: &'static str)
    ensures
        number < threshold ==> message@ == "Condition is true."@,
        number >= threshold ==> message@ == "Condition is false."@,
{
    if number < threshold {
        "Condition is true."
    } else {
        "Condition is false."
    }
}

/// Tells whether `condition` is exactly `expected`.
pub fn switch_is_on(condition: i32, expected: i32) -> (on: bool)
    ensures
        on == (condition == expected),
{
    if condition == expected {
        true
    } else {
        false
    }
}

/// Counts up from zero in steps of one and leaves the loop as soon as the
/// counter has reached `bound`, yielding twice the counter.
///
/// A `bound` of zero or less is reached at once, with the counter still zero.
/// Twice the bound has to fit in an `i32`.
pub fn count_to(bound: i32) -> (outcome: LoopOutcome)
    requires
        2 * bound <= i32::MAX,
    ensures
        outcome.counter == if bound > 0 { bound } else { 0 },
        outcome.result == 2 * outcome.counter,
{
    let mut counter: i32 = 0;
    let mut result: i32 = 0;
    loop
        invariant_except_break
            0 <= counter <= if bound > 0 { bound } else { 0 },
            2 * bound <= i32::MAX,
        ensures
            counter == if bound > 0 { bound } else { 0 },
            result == 2 * counter,
        decreases bound - counter,
    {
        if counter >= bound {
            result = counter * 2;
            break;
        }
        counter += 1;
    }
    LoopOutcome { counter, result }
}

/// Walks `elements` from first to last and pairs each with its position,
/// counted from zero.
pub fn number_elements(elements: &[i32]) -> (numbered: Vec<(usize, i32)>)
    ensures
        numbered@.len() == elements@.len(),
        forall|i: int|
            0 <= i < elements@.len() ==> #[trigger] numbered@[i] == (i as usize, elements@[i]),
{
    let mut numbered: Vec<(usize, i32)> = Vec::new();
    let mut counter: usize = 0;
    for element in it: elements.iter()
        invariant
            counter == it.index(),
            it.seq().len() == elements.len(),
            numbered@.len() == counter,
            forall|i: int|
                0 <= i < counter ==> #[trigger] numbered@[i] == (i as usize, elements@[i]),
    {
        numbered.push((counter, *element));
        counter += 1;
    }
    numbered
}

} // verus!
