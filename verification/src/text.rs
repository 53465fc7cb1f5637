//! Comparisons of string slices, character by character.

use vstd::prelude::*;
use vstd::std_specs::iter::IteratorSpec;

verus! {

/// Whether `text` begins with `prefix`.
pub fn has_prefix(text: &str, prefix: &str) -> (r: bool)
    ensures
        r == prefix@.is_prefix_of(text@),
{
    let mut rest = text.chars();
    let mut want = prefix.chars();
    let ghost mut n: int = 0;
    loop
        invariant
            0 <= n <= prefix@.len(),
            n <= text@.len(),
            want.remaining() == prefix@.skip(n),
            rest.remaining() == text@.skip(n),
            prefix@.take(n) == text@.take(n),
            want.obeys_prophetic_iter_laws(),
            rest.obeys_prophetic_iter_laws(),
        decreases prefix@.len() - n,
    {
        match want.next() {
            None => {
                return true;
            },
            Some(p) => {
                match rest.next() {
                    None => {
                        return false;
                    },
                    Some(c) => {
                        if c != p {
                            return false;
                        }
                        proof {
                            n = n + 1;
                        }
                    },
                }
            },
        }
    }
}

/// Whether `a` and `b` hold the same characters.
pub fn same_text(a: &str, b: &str) -> (r: bool)
    ensures
        r == (a@ == b@),
{
    let mut left = a.chars();
    let mut right = b.chars();
    let ghost mut n: int = 0;
    loop
        invariant
            0 <= n <= a@.len(),
            n <= b@.len(),
            left.remaining() == a@.skip(n),
            right.remaining() == b@.skip(n),
            a@.take(n) == b@.take(n),
            left.obeys_prophetic_iter_laws(),
            right.obeys_prophetic_iter_laws(),
        decreases a@.len() - n,
    {
        match left.next() {
            None => {
                let more = right.next();
                assert(a@.take(n) == a@);
                assert(more is None ==> b@.take(n) == b@);
                return more.is_none();
            },
            Some(x) => {
                match right.next() {
                    None => {
                        return false;
                    },
                    Some(y) => {
                        if x != y {
                            return false;
                        }
                        proof {
                            n = n + 1;
                        }
                    },
                }
            },
        }
    }
}

} // verus!
