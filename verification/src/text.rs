//! Questions about the characters of a text.

use vstd::prelude::*;

verus! {

/// The escape character, which opens a terminal control sequence.
pub const ESCAPE: char = '\u{1b}';

/// `text` has no escape character, so it holds no terminal control sequence.
pub open spec fn no_escape(text: Seq<char>) -> bool {
    !text.contains(ESCAPE)
}

/// `text` stays on one line: it has neither a line feed nor a carriage return.
pub open spec fn single_line(text: Seq<char>) -> bool {
    !text.contains('\n') && !text.contains('\r')
}

/// Tells whether `text` is free of escape characters.
pub fn is_free_of_escape(text: &str) -> (free: bool)
    ensures
        free == no_escape(text@),
{
    let mut free: bool = true;
    for c in it: text.chars()
        invariant
            it.seq() == text@,
            free == no_escape(text@.take(it.index() as int)),
    {
        proof {
            let seen = text@.take(it.index() as int);
            assert(text@.take(it.index() + 1) == seen.push(c));
            if seen.contains(ESCAPE) {
                let k = choose|k: int| 0 <= k < seen.len() && seen[k] == ESCAPE;
                assert(seen.push(c)[k] == ESCAPE);
            }
            assert(seen.push(c)[seen.len() as int] == c);
        }
        if c == ESCAPE {
            free = false;
        }
    }
    assert(text@.take(text@.len() as int) == text@);
    free
}

} // verus!
