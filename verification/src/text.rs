//! Strings as sequences of characters.
use vstd::prelude::*;

verus! {

/// `String::push` of std puts one character at the end of the string and
/// changes nothing before it.
pub assume_specification[ String::push ](s: &mut String, ch: char)
    ensures
        final(s)@ == old(s)@.push(ch),
;

/// What an optional string holds, as characters.
pub open spec fn opt_text(s: Option<String>) -> Option<Seq<char>> {
    match s {
        Some(s) => Some(s@),
        None => None,
    }
}

} // verus!
