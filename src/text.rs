use vstd::prelude::*;

verus! {

/// The characters of a string, in order.
pub fn chars_of(s: &str) -> (r: Vec<char>)
    ensures
        r@ == s@,
{
    broadcast use vstd::string::axiom_spec_iter;

    let mut v: Vec<char> = Vec::new();
    for c in it: s.chars()
        invariant
            v@ == it.seq().take(it.index()),
            it.seq() == s@,
    {
        v.push(c);
    }
    assert(v@ =~= s@);
    v
}

/// Relies on std's `FromIterator<&char>` for `String`: the string holds the
/// characters in order.
#[verifier::external_body]
pub(crate) fn string_from_chars(v: &Vec<char>) -> (r: String)
    ensures
        r@ == v@,
{
    String::from_iter(v.iter())
}

/// The uppercase mapping of one character, as Unicode gives it.
pub uninterp spec fn upper_of(c: char) -> Seq<char>;

/// Relies on `char::to_uppercase`: the mapping depends on the character
/// alone; an ASCII lowercase letter maps to its capital, and any other ASCII
/// character to itself.
#[verifier::external_body]
pub(crate) fn uppercase(c: char) -> (r: Vec<char>)
    ensures
        r@ == upper_of(c),
        'a' <= c <= 'z' ==> r@.len() == 1 && r@[0] as u32 == c as u32 - 32,
        (c as u32) < 128 && !('a' <= c <= 'z') ==> r@ == seq![c],
{
    c.to_uppercase().collect()
}

} // verus!
