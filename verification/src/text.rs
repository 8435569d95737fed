//! Small verified operations on text, stated over sequences of characters.

use vstd::prelude::*;
use vstd::std_specs::iter::IteratorSpec;
use vstd::string::StrSliceExecFns;

verus! {

/// `i` is the position of the first `c` in `s`.
pub open spec fn is_first_index(s: Seq<char>, c: char, i: int) -> bool {
    &&& 0 <= i < s.len()
    &&& s[i] == c
    &&& forall|j: int| 0 <= j < i ==> s[j] != c
}

/// The position of the first `c` in `s`, if `c` occurs in it.
pub open spec fn first_index_of(s: Seq<char>, c: char) -> Option<int> {
    if exists|i: int| is_first_index(s, c, i) {
        Some(choose|i: int| is_first_index(s, c, i))
    } else {
        None
    }
}

/// A first position is the only one: `first_index_of` returns it.
pub proof fn lemma_first_index_unique(s: Seq<char>, c: char, i: int)
    requires
        is_first_index(s, c, i),
    ensures
        first_index_of(s, c) == Some(i),
{
    let k = choose|k: int| is_first_index(s, c, k);
    if k < i {
        assert(s[k] != c);
    } else if i < k {
        assert(s[i] != c);
    }
}

/// Where `c` does not occur there is no first position.
pub proof fn lemma_first_index_absent(s: Seq<char>, c: char)
    requires
        forall|j: int| 0 <= j < s.len() ==> s[j] != c,
    ensures
        first_index_of(s, c) is None,
{
}

/// Whether `s` begins with `prefix`.
pub fn starts_with(s: &str, prefix: &str) -> (r: bool)
    ensures
        r == prefix@.is_prefix_of(s@),
{
    let mut rest = s.chars();
    let mut want = prefix.chars();
    let ghost mut n: int = 0;
    loop
        invariant
            0 <= n <= prefix@.len(),
            n <= s@.len(),
            rest.obeys_prophetic_iter_laws(),
            want.obeys_prophetic_iter_laws(),
            rest.remaining() == s@.skip(n),
            want.remaining() == prefix@.skip(n),
            s@.take(n) == prefix@.take(n),
        decreases prefix@.len() - n,
    {
        match want.next() {
            None => {
                assert(prefix@.take(n) == prefix@);
                assert(s@.take(n) == s@.subrange(0, n));
                return true;
            },
            Some(expected) => {
                match rest.next() {
                    None => {
                        return false;
                    },
                    Some(found) => {
                        assert(expected == prefix@[n]);
                        assert(found == s@[n]);
                        if found != expected {
                            assert(prefix@.len() <= s@.len() ==> s@.subrange(
                                0,
                                prefix@.len() as int,
                            )[n] == s@[n]);
                            return false;
                        }
                        assert(s@.take(n + 1) == s@.take(n).push(s@[n]));
                        assert(prefix@.take(n + 1) == prefix@.take(n).push(prefix@[n]));
                        assert(s@.skip(n).drop_first() == s@.skip(n + 1));
                        assert(prefix@.skip(n).drop_first() == prefix@.skip(n + 1));
                        proof {
                            n = n + 1;
                        }
                    },
                }
            },
        }
    }
}

/// The position of the first `c` in `s`, counted in characters.
pub fn find_char(s: &str, c: char) -> (r: Option<usize>)
    ensures
        match r {
            Some(i) => first_index_of(s@, c) == Some(i as int) && is_first_index(s@, c, i as int),
            None => first_index_of(s@, c) is None,
        },
{
    let total: usize = s.unicode_len();
    let mut rest = s.chars();
    let mut n: usize = 0;
    loop
        invariant
            0 <= n <= s@.len(),
            s@.len() == total,
            rest.obeys_prophetic_iter_laws(),
            rest.remaining() == s@.skip(n as int),
            forall|j: int| 0 <= j < n ==> s@[j] != c,
        decreases s@.len() - n,
    {
        match rest.next() {
            None => {
                proof {
                    lemma_first_index_absent(s@, c);
                }
                return None;
            },
            Some(found) => {
                assert(found == s@[n as int]);
                if found == c {
                    proof {
                        lemma_first_index_unique(s@, c, n as int);
                    }
                    return Some(n);
                }
                assert(s@.skip(n as int).drop_first() == s@.skip(n + 1));
                n = n + 1;
            },
        }
    }
}

/// Whether `a` and `b` hold the same characters.
pub fn same_text(a: &str, b: &str) -> (r: bool)
    ensures
        r == (a@ == b@),
{
    let both = starts_with(a, b) && starts_with(b, a);
    proof {
        if both {
            assert(a@ =~= b@);
        }
    }
    both
}

} // verus!
