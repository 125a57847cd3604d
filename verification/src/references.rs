//! Reading and extending a text buffer through borrows.
//!
//! A buffer is a `String`, modelled by its view: the sequence of its
//! characters. A shared borrow can only inspect the buffer; an exclusive
//! borrow can extend it. Which borrows may exist side by side is settled
//! when the caller is compiled, so none of these functions has a way to
//! fail.

use vstd::prelude::*;

verus! {

/// Counts the characters of `s`.
///
/// The buffer is only borrowed, so it is the same after the call, and the
/// result depends on its contents alone: asking again gives the same count.
pub fn calculate_length(s: &String) -> (len: usize)
    ensures
        len == s@.len(),
{
    s.as_str().unicode_len()
}

/// Appends `suffix` to the end of `s`, in place.
///
/// What was in the buffer stays where it was; the characters of `suffix`
/// follow it in their own order. The buffer grows by exactly the number of
/// characters of `suffix`.
pub fn append(s: &mut String, suffix: &str)
    ensures
        final(s)@ == old(s)@ + suffix@,
        final(s)@.len() == old(s)@.len() + suffix@.len(),
{
    s.append(suffix);
}

/// Appends the text `", mjao"` to the end of `s`, in place.
pub fn change(s: &mut String)
    ensures
        final(s)@ == old(s)@ + ", mjao"@,
{
    append(s, ", mjao");
}

/// A buffer that held `before` and had `suffix` appended is as long as
/// `before` and `suffix` together.
pub proof fn lemma_append_adds_length(before: Seq<char>, suffix: Seq<char>)
    ensures
        (before + suffix).len() == before.len() + suffix.len(),
{
}

/// Two appends in a row amount to one append of the two suffixes joined in
/// the order in which they were appended.
pub proof fn lemma_append_twice(before: Seq<char>, first: Seq<char>, second: Seq<char>)
    ensures
        (before + first) + second == before + (first + second),
{
}

/// Appending in the opposite order gives the same buffer exactly where the
/// two suffixes give the same text joined either way round.
pub proof fn lemma_append_order(before: Seq<char>, first: Seq<char>, second: Seq<char>)
    ensures
        ((before + first) + second == (before + second) + first) <==> (first + second == second
            + first),
{
    lemma_append_twice(before, first, second);
    lemma_append_twice(before, second, first);
    let n: int = before.len() as int;
    let ab = before + (first + second);
    let ba = before + (second + first);
    assert(ab.subrange(n, ab.len() as int) == first + second);
    assert(ba.subrange(n, ba.len() as int) == second + first);
}

/// Two different suffixes of the same length never give the same buffer when
/// their order is swapped.
pub proof fn lemma_append_not_commutative(
    before: Seq<char>,
    first: Seq<char>,
    second: Seq<char>,
)
    requires
        first.len() == second.len(),
        first != second,
    ensures
        (before + first) + second != (before + second) + first,
{
    lemma_append_order(before, first, second);
    let k: int = first.len() as int;
    assert((first + second).subrange(0, k) == first);
    assert((second + first).subrange(0, k) == second);
}

} // verus!
