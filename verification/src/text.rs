//! Building strings one character at a time.

use vstd::prelude::*;

verus! {

/// `String::push` of the standard library: the string afterwards is the string
/// before with `c` added at its end.
#[verifier::external_body]
pub(crate) fn push_char(text: &mut String, c: char)
    ensures
        final(text)@ == old(text)@.push(c),
{
    text.push(c);
}

/// The characters that `bytes` spell in Latin-1: each byte is the code point of
/// one character.
pub open spec fn latin1(bytes: Seq<u8>) -> Seq<char> {
    Seq::new(bytes.len(), |i: int| bytes[i] as char)
}

/// Decodes the bytes from `start` up to `end` as Latin-1 text.
pub fn latin1_string(bytes: &[u8], start: usize, end: usize) -> (text: String)
    requires
        start <= end <= bytes.len(),
    ensures
        text@ == latin1(bytes@.subrange(start as int, end as int)),
{
    let mut text = String::new();
    let mut i: usize = start;
    while i < end
        invariant
            start <= i <= end <= bytes.len(),
            text@ == latin1(bytes@.subrange(start as int, i as int)),
        decreases end - i,
    {
        push_char(&mut text, bytes[i] as char);
        i += 1;
        assert(text@ =~= latin1(bytes@.subrange(start as int, i as int)));
    }
    text
}

} // verus!
