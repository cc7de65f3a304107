//! Wildcard matching: `*` matches any run of characters (including none),
//! `?` matches exactly one character, every other character only itself.
//! There is no escaping and there are no character classes.

use vstd::prelude::*;

verus! {

/// Whether the pattern `p` matches the whole candidate `t`.
pub open spec fn glob_matches(p: Seq<char>, t: Seq<char>) -> bool
    decreases p.len() + t.len(),
{
    if p.len() == 0 {
        t.len() == 0
    } else if p[0] == '*' {
        glob_matches(p.skip(1), t) || (t.len() > 0 && glob_matches(p, t.skip(1)))
    } else if t.len() == 0 {
        false
    } else {
        (p[0] == '?' || p[0] == t[0]) && glob_matches(p.skip(1), t.skip(1))
    }
}

/// Matches the pattern `p` against the candidate `t`, both starting at the
/// given offsets.
pub fn glob_match_at(p: &Vec<char>, i: usize, t: &Vec<char>, j: usize) -> (r: bool)
    requires
        i <= p@.len(),
        j <= t@.len(),
    ensures
        r == glob_matches(p@.skip(i as int), t@.skip(j as int)),
    decreases p@.len() - i + t@.len() - j,
{
    proof {
        assert(p@.skip(i as int).len() == p@.len() - i);
        assert(t@.skip(j as int).len() == t@.len() - j);
        if i < p@.len() {
            assert(p@.skip(i as int)[0] == p@[i as int]);
            assert(p@.skip(i as int).skip(1) =~= p@.skip(i as int + 1));
        }
        if j < t@.len() {
            assert(t@.skip(j as int)[0] == t@[j as int]);
            assert(t@.skip(j as int).skip(1) =~= t@.skip(j as int + 1));
        }
    }
    if i == p.len() {
        j == t.len()
    } else if p[i] == '*' {
        if glob_match_at(p, i + 1, t, j) {
            true
        } else if j < t.len() {
            glob_match_at(p, i, t, j + 1)
        } else {
            false
        }
    } else if j == t.len() {
        false
    } else {
        if p[i] == '?' || p[i] == t[j] {
            glob_match_at(p, i + 1, t, j + 1)
        } else {
            false
        }
    }
}

/// A pattern without wildcard characters matches exactly the candidate that
/// equals it, character for character.
pub proof fn lemma_literal_pattern_exact(p: Seq<char>, t: Seq<char>)
    requires
        forall|i: int| 0 <= i < p.len() ==> p[i] != '*' && p[i] != '?',
    ensures
        glob_matches(p, t) <==> p == t,
    decreases p.len() + t.len(),
{
    if p.len() == 0 {
        if t.len() == 0 {
            assert(p =~= t);
        }
    } else if t.len() == 0 {
        assert(p != t);
    } else {
        lemma_literal_pattern_exact(p.skip(1), t.skip(1));
        if p[0] == t[0] && p.skip(1) == t.skip(1) {
            assert forall|k: int| 0 <= k < p.len() implies p[k] == t[k] by {
                if k >= 1 {
                    assert(p[k] == p.skip(1)[k - 1]);
                    assert(t[k] == t.skip(1)[k - 1]);
                }
            }
            assert(p =~= t);
        }
        if p == t {
            assert(p.skip(1) =~= t.skip(1));
        }
    }
}

} // verus!
