//! What is said of texts as sequences of characters: that a character is
//! absent, and where a pattern stands.

use vstd::prelude::*;

verus! {

/// Whether `c` occurs nowhere in `text`.
pub open spec fn lacks(text: Seq<char>, c: char) -> bool {
    forall|i: int| 0 <= i < text.len() ==> text[i] != c
}

/// Whether `pattern` stands in `text` at the position `at`.
pub open spec fn occurs_at(text: Seq<char>, pattern: Seq<char>, at: int) -> bool {
    0 <= at && at + pattern.len() <= text.len() && text.subrange(at, at + pattern.len())
        == pattern
}

/// The positions at which `pattern` stands in `text`.
pub open spec fn occurrences(text: Seq<char>, pattern: Seq<char>) -> Set<int> {
    Set::new(|at: int| occurs_at(text, pattern, at))
}

} // verus!
