use vstd::prelude::*;
use crate::text::{contains_text, has_substring};

verus! {

/// Which of the three bin categories are due; any combination may be set.
#[derive(Clone, Copy, Debug, PartialEq, Eq, Structural)]
pub struct Bins {
    pub black: bool,
    pub blue: bool,
    pub brown: bool,
}

pub open spec fn black_bin() -> Seq<char> {
    seq!['b', 'l', 'a', 'c', 'k', ' ', 'b', 'i', 'n']
}

pub open spec fn blue_bin() -> Seq<char> {
    seq!['b', 'l', 'u', 'e', ' ', 'b', 'i', 'n']
}

pub open spec fn brown_bin() -> Seq<char> {
    seq!['b', 'r', 'o', 'w', 'n', ' ', 'b', 'i', 'n']
}

/// The bins named in a collection description: each category is due exactly when
/// its phrase ("black bin", "blue bin", "brown bin") occurs in the text, case-sensitively.
pub open spec fn bins_of(description: Seq<char>) -> Bins {
    Bins {
        black: has_substring(description, black_bin()),
        blue: has_substring(description, blue_bin()),
        brown: has_substring(description, brown_bin()),
    }
}

/// Classifies a collection description by the bin phrases it contains.
pub fn extract_bins(input: &str) -> (r: Bins)
    ensures
        r == bins_of(input@),
{
    proof {
        reveal_strlit("black bin");
        reveal_strlit("blue bin");
        reveal_strlit("brown bin");
    }
    let black = contains_text(input, "black bin");
    let blue = contains_text(input, "blue bin");
    let brown = contains_text(input, "brown bin");
    assert("black bin"@ =~= black_bin());
    assert("blue bin"@ =~= blue_bin());
    assert("brown bin"@ =~= brown_bin());
    Bins { black, blue, brown }
}

} // verus!
