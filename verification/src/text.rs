//! Building text.

use vstd::prelude::*;

verus! {

/// `String::push_str`: appends `tail` to the end of `text`.
#[verifier::external_body]
pub(crate) fn append(text: &mut String, tail: &str)
    ensures
        final(text)@ == old(text)@ + tail@,
{
    text.push_str(tail)
}

/// The concatenation of two texts as a new `String`.
pub(crate) fn concat(head: &str, tail: &str) -> (joined: String)
    ensures
        joined@ == head@ + tail@,
{
    let mut joined = head.to_owned();
    append(&mut joined, tail);
    joined
}

} // verus!
