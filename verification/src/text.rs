use vstd::prelude::*;

verus! {

/// `String::push_str`: appends `tail` to `s`, so that the text afterwards is
/// the text before followed by `tail`.
#[verifier::external_body]
pub(crate) fn push_str(s: &mut String, tail: &str)
    ensures
        final(s)@ == old(s)@ + tail@,
{
    s.push_str(tail)
}

} // verus!
