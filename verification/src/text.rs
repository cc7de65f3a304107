//! Character-level helpers shared by the matching engine and the validators:
//! ASCII case folding, whitespace trimming, substring search and
//! case-insensitive comparison.

use vstd::prelude::*;
use vstd::string::StrSliceExecFns;

verus! {

/// ASCII lower-casing of a single character; everything outside `A..=Z`
/// is left unchanged.
pub open spec fn lower_char(c: char) -> char {
    if 'A' <= c && c <= 'Z' {
        ((c as u8) + 32) as char
    } else {
        c
    }
}

/// ASCII lower-casing of a whole character sequence.
pub open spec fn lower(s: Seq<char>) -> Seq<char> {
    s.map_values(|c: char| lower_char(c))
}

/// ASCII whitespace, as trimmed from folder names and user input.
pub open spec fn is_space(c: char) -> bool {
    c == ' ' || c == '\t' || c == '\n' || c == '\r' || c == '\u{b}' || c == '\u{c}'
}

/// Index of the first non-whitespace character at or after `i`,
/// or `s.len()` if the rest is all whitespace.
pub open spec fn first_non_space(s: Seq<char>, i: int) -> int
    decreases s.len() - i,
{
    if i < 0 || i >= s.len() {
        s.len() as int
    } else if is_space(s[i]) {
        first_non_space(s, i + 1)
    } else {
        i
    }
}

/// Index one past the last non-whitespace character strictly before `j`,
/// or `0` if everything before `j` is whitespace.
pub open spec fn last_non_space(s: Seq<char>, j: int) -> int
    decreases j,
{
    if j <= 0 || j > s.len() {
        0
    } else if is_space(s[j - 1]) {
        last_non_space(s, j - 1)
    } else {
        j
    }
}

/// The sequence with leading and trailing whitespace removed.
pub open spec fn trim(s: Seq<char>) -> Seq<char> {
    let lo = first_non_space(s, 0);
    let hi = last_non_space(s, s.len() as int);
    if lo <= hi {
        s.subrange(lo, hi)
    } else {
        Seq::empty()
    }
}

/// `needle` occurs contiguously somewhere in `hay`.
pub open spec fn contains_seq(hay: Seq<char>, needle: Seq<char>) -> bool {
    exists|i: int|
        0 <= i && i + needle.len() <= hay.len() && #[trigger] hay.subrange(i, i + needle.len())
            == needle
}

/// The pieces of `s` between commas, scanning from `cur` with the current
/// piece having started at `start`. A trailing comma yields an empty piece.
pub open spec fn split_from(s: Seq<char>, start: int, cur: int) -> Seq<Seq<char>>
    decreases s.len() - cur,
{
    if cur < 0 || cur >= s.len() {
        seq![s.subrange(start, s.len() as int)]
    } else if s[cur] == ',' {
        seq![s.subrange(start, cur)] + split_from(s, cur + 1, cur + 1)
    } else {
        split_from(s, start, cur + 1)
    }
}

/// Each piece trimmed, and the pieces that were only whitespace dropped.
pub open spec fn cleanse(pieces: Seq<Seq<char>>) -> Seq<Seq<char>>
    decreases pieces.len(),
{
    if pieces.len() == 0 {
        Seq::empty()
    } else if trim(pieces[0]).len() == 0 {
        cleanse(pieces.skip(1))
    } else {
        seq![trim(pieces[0])] + cleanse(pieces.skip(1))
    }
}

/// What comma-separated user input denotes: the comma-delimited pieces,
/// trimmed, with blank pieces dropped.
pub open spec fn parsed_values(s: Seq<char>) -> Seq<Seq<char>> {
    cleanse(split_from(s, 0, 0))
}

/// Whether the input is the literal token `all`, ignoring case and
/// surrounding whitespace.
pub open spec fn is_all_token(s: Seq<char>) -> bool {
    lower(trim(s)) == "all"@
}

/// Splits comma-separated input into its trimmed, non-blank values.
pub fn parse_tokens(src: &str) -> (r: Vec<String>)
    ensures
        r.deep_view() == parsed_values(src@),
{
    let n = src.unicode_len();
    let mut out: Vec<String> = Vec::new();
    let mut start: usize = 0;
    let mut cur: usize = 0;
    while cur < n
        invariant
            start <= cur <= n,
            n == src@.len(),
            out.deep_view() + cleanse(split_from(src@, start as int, cur as int)) == parsed_values(
                src@,
            ),
        decreases n - cur,
    {
        if src.get_char(cur) == ',' {
            let ghost prev_pieces = split_from(src@, start as int, cur as int);
            let piece = src.substring_char(start, cur);
            let t = trim_str(piece);
            proof {
                assert(prev_pieces[0] == src@.subrange(start as int, cur as int));
                assert(prev_pieces.skip(1) =~~= split_from(src@, cur + 1, cur + 1));
            }
            if !t.as_str().is_empty() {
                let ghost old_out = out.deep_view();
                out.push(t);
                proof {
                    assert(out.deep_view() =~~= old_out + seq![t@]);
                    assert(out.deep_view() + cleanse(split_from(src@, cur + 1, cur + 1)) =~~= (
                    old_out + cleanse(prev_pieces)));
                }
            }
            start = cur + 1;
        }
        cur = cur + 1;
    }
    let ghost last_pieces = split_from(src@, start as int, cur as int);
    proof {
        assert(last_pieces =~~= seq![src@.subrange(start as int, n as int)]);
        assert(last_pieces.skip(1) =~~= Seq::<Seq<char>>::empty());
        assert(cleanse(last_pieces.skip(1)) =~~= Seq::<Seq<char>>::empty());
    }
    let piece = src.substring_char(start, n);
    let t = trim_str(piece);
    if !t.as_str().is_empty() {
        let ghost old_out = out.deep_view();
        out.push(t);
        proof {
            assert(out.deep_view() =~~= old_out + seq![t@]);
            assert(out.deep_view() =~~= old_out + cleanse(last_pieces));
        }
    } else {
        proof {
            assert(out.deep_view() =~~= out.deep_view() + cleanse(last_pieces));
        }
    }
    out
}

/// Whether the input is the token `all`.
pub fn is_all_input(src: &str) -> (r: bool)
    ensures
        r == is_all_token(src@),
{
    let t = trim_str(src);
    let r = eq_ignore_case(t.as_str(), "all");
    proof {
        reveal_strlit("all");
        assert(lower("all"@) =~= "all"@);
    }
    r
}

/// Lower-cases one character.
pub fn lower_char_exec(c: char) -> (r: char)
    ensures
        r == lower_char(c),
{
    if 'A' <= c && c <= 'Z' {
        ((c as u8) + 32) as char
    } else {
        c
    }
}

/// The characters of `s`, as a vector.
pub fn chars_of(s: &str) -> (r: Vec<char>)
    ensures
        r@ == s@,
{
    let n = s.unicode_len();
    let mut r: Vec<char> = Vec::new();
    let mut i: usize = 0;
    while i < n
        invariant
            i <= n,
            n == s@.len(),
            r@ == s@.subrange(0, i as int),
        decreases n - i,
    {
        r.push(s.get_char(i));
        i = i + 1;
        proof {
            assert(r@ =~= s@.subrange(0, i as int));
        }
    }
    proof {
        assert(r@ =~= s@);
    }
    r
}

/// The characters of `s` lower-cased, as a vector.
pub fn lower_chars_of(s: &str) -> (r: Vec<char>)
    ensures
        r@ == lower(s@),
{
    let n = s.unicode_len();
    let mut r: Vec<char> = Vec::new();
    let mut i: usize = 0;
    while i < n
        invariant
            i <= n,
            n == s@.len(),
            r@ == lower(s@.subrange(0, i as int)),
        decreases n - i,
    {
        r.push(lower_char_exec(s.get_char(i)));
        i = i + 1;
        proof {
            assert(r@ =~= lower(s@.subrange(0, i as int)));
        }
    }
    proof {
        assert(r@ =~= lower(s@));
    }
    r
}

/// Exact, case-sensitive string equality.
pub fn eq_exact(a: &str, b: &str) -> (r: bool)
    ensures
        r == (a@ == b@),
{
    let na = a.unicode_len();
    let nb = b.unicode_len();
    if na != nb {
        proof {
            assert(a@ != b@);
        }
        return false;
    }
    let mut i: usize = 0;
    while i < na
        invariant
            i <= na,
            na == a@.len(),
            na == b@.len(),
            forall|k: int| 0 <= k < i ==> a@[k] == b@[k],
        decreases na - i,
    {
        if a.get_char(i) != b.get_char(i) {
            proof {
                assert(a@ != b@);
            }
            return false;
        }
        i = i + 1;
    }
    proof {
        assert(a@ =~= b@);
    }
    true
}

/// Case-insensitive string equality under ASCII folding.
pub fn eq_ignore_case(a: &str, b: &str) -> (r: bool)
    ensures
        r == (lower(a@) == lower(b@)),
{
    let na = a.unicode_len();
    let nb = b.unicode_len();
    if na != nb {
        proof {
            assert(lower(a@).len() != lower(b@).len());
        }
        return false;
    }
    let mut i: usize = 0;
    while i < na
        invariant
            i <= na,
            na == a@.len(),
            na == b@.len(),
            forall|k: int| 0 <= k < i ==> lower(a@)[k] == lower(b@)[k],
        decreases na - i,
    {
        if lower_char_exec(a.get_char(i)) != lower_char_exec(b.get_char(i)) {
            proof {
                assert(lower(a@)[i as int] != lower(b@)[i as int]);
            }
            return false;
        }
        i = i + 1;
    }
    proof {
        assert(lower(a@) =~= lower(b@));
    }
    true
}

/// A copy of `s` with leading and trailing whitespace removed.
pub fn trim_str(s: &str) -> (r: String)
    ensures
        r@ == trim(s@),
{
    let n = s.unicode_len();
    let mut lo: usize = 0;
    while lo < n && is_space_exec(s.get_char(lo))
        invariant
            lo <= n,
            n == s@.len(),
            first_non_space(s@, 0) == first_non_space(s@, lo as int),
        decreases n - lo,
    {
        lo = lo + 1;
    }
    proof {
        assert(first_non_space(s@, 0) == lo as int);
    }
    let mut hi: usize = n;
    while hi > lo && is_space_exec(s.get_char(hi - 1))
        invariant
            lo <= hi <= n,
            n == s@.len(),
            lo as int == first_non_space(s@, 0),
            last_non_space(s@, n as int) == last_non_space(s@, hi as int),
        decreases hi,
    {
        hi = hi - 1;
    }
    if lo >= hi {
        proof {
            lemma_last_non_space_le(s@, hi as int);
            assert(trim(s@) =~= Seq::<char>::empty());
        }
        String::new()
    } else {
        proof {
            assert(last_non_space(s@, s@.len() as int) == hi as int);
        }
        s.substring_char(lo, hi).to_owned()
    }
}

/// Relies on String::push: appends exactly the given character.
#[verifier::external_body]
pub fn push_char(s: &mut String, c: char)
    ensures
        final(s)@ == old(s)@.push(c),
{
    s.push(c);
}

/// `s` with every occurrence of `pat` removed, scanning left to right and
/// not rescanning what a removal joins up.
pub open spec fn remove_all(s: Seq<char>, pat: Seq<char>) -> Seq<char>
    decreases s.len(),
{
    if pat.len() <= 0 {
        s
    } else if s.len() < pat.len() {
        s
    } else if s.subrange(0, pat.len() as int) == pat {
        remove_all(s.skip(pat.len() as int), pat)
    } else {
        seq![s[0]] + remove_all(s.skip(1), pat)
    }
}

/// A copy of `s` with every occurrence of `pat` removed.
pub fn remove_all_occurrences(s: &str, pat: &str) -> (r: String)
    requires
        pat@.len() > 0,
    ensures
        r@ == remove_all(s@, pat@),
{
    let sc = chars_of(s);
    let pc = chars_of(pat);
    let n = sc.len();
    let m = pc.len();
    let mut out = String::new();
    let mut i: usize = 0;
    proof {
        assert(s@.skip(0) =~= s@);
        assert(out@ + remove_all(s@, pat@) =~= remove_all(s@, pat@));
    }
    while i < n
        invariant
            i <= n,
            n == s@.len(),
            m == pat@.len(),
            m > 0,
            sc@ == s@,
            pc@ == pat@,
            out@ + remove_all(s@.skip(i as int), pat@) == remove_all(s@, pat@),
        decreases n - i,
    {
        let ghost prev = i as int;
        let ghost old_out = out@;
        let matched: bool = if m <= n && i <= n - m {
            chunk_equals(&sc, i, &pc)
        } else {
            false
        };
        proof {
            if prev + m <= n {
                assert(s@.skip(prev).subrange(0, m as int) =~= s@.subrange(prev, prev + m));
            } else {
                assert(s@.skip(prev).len() < m);
            }
        }
        if matched {
            i = i + m;
            proof {
                assert(s@.skip(prev).skip(m as int) =~= s@.skip(i as int));
            }
        } else {
            push_char(&mut out, sc[i]);
            i = i + 1;
            proof {
                assert(s@.skip(prev)[0] == s@[prev]);
                assert(s@.skip(prev).skip(1) =~= s@.skip(i as int));
                assert(out@ =~= old_out + seq![s@[prev]]);
                assert(out@ + remove_all(s@.skip(i as int), pat@) =~= old_out + (seq![s@[prev]]
                    + remove_all(s@.skip(i as int), pat@)));
            }
        }
    }
    proof {
        assert(s@.skip(n as int) =~= Seq::<char>::empty());
        assert(out@ + remove_all(s@.skip(n as int), pat@) =~= out@);
    }
    out
}

/// Whether `pat` occurs in `hay` starting at index `i`.
fn chunk_equals(hay: &Vec<char>, i: usize, pat: &Vec<char>) -> (r: bool)
    requires
        i + pat@.len() <= hay@.len(),
    ensures
        r == (hay@.subrange(i as int, i + pat@.len()) == pat@),
{
    let m = pat.len();
    let hn = hay.len();
    let mut j: usize = 0;
    while j < m
        invariant
            j <= m,
            m == pat@.len(),
            hn == hay@.len(),
            i + m <= hn,
            forall|k: int| 0 <= k < j ==> hay@[i + k] == pat@[k],
        decreases m - j,
    {
        if hay[i + j] != pat[j] {
            proof {
                assert(hay@[i + j as int] != pat@[j as int]);
                if hay@.subrange(i as int, i + pat@.len()) == pat@ {
                    assert(forall|k: int|
                        0 <= k < m ==> pat@[k] == #[trigger] hay@.subrange(
                            i as int,
                            i + pat@.len(),
                        )[k]);
                }
            }
            return false;
        }
        j = j + 1;
    }
    proof {
        assert(hay@.subrange(i as int, i + pat@.len()) =~= pat@);
    }
    true
}

/// Whether one character is ASCII whitespace.
pub fn is_space_exec(c: char) -> (r: bool)
    ensures
        r == is_space(c),
{
    c == ' ' || c == '\t' || c == '\n' || c == '\r' || c == '\u{b}' || c == '\u{c}'
}

proof fn lemma_last_non_space_le(s: Seq<char>, j: int)
    requires
        0 <= j <= s.len(),
    ensures
        last_non_space(s, j) <= j,
    decreases j,
{
    if j > 0 && is_space(s[j - 1]) {
        lemma_last_non_space_le(s, j - 1);
    }
}

/// Whether `lower(needle)` occurs contiguously in `lower(hay)`:
/// the case-insensitive substring test used by the ambiguity guard.
pub fn contains_ignore_case(hay: &str, needle: &str) -> (r: bool)
    ensures
        r == contains_seq(lower(hay@), lower(needle@)),
{
    let h = lower_chars_of(hay);
    let n = lower_chars_of(needle);
    contains_chars(&h, &n)
}

/// Substring search over character vectors.
pub fn contains_chars(hay: &Vec<char>, needle: &Vec<char>) -> (r: bool)
    ensures
        r == contains_seq(hay@, needle@),
{
    let hn = hay.len();
    let nn = needle.len();
    if nn > hn {
        proof {
            assert(!contains_seq(hay@, needle@));
        }
        return false;
    }
    let mut i: usize = 0;
    while i <= hn - nn
        invariant
            nn <= hn,
            hn == hay@.len(),
            nn == needle@.len(),
            i <= hn - nn + 1,
            forall|k: int|
                0 <= k < i ==> #[trigger] hay@.subrange(k, k + needle@.len()) != needle@,
        decreases hn + 1 - nn - i,
    {
        let mut j: usize = 0;
        let mut matched: bool = true;
        while j < nn
            invariant
                nn <= hn,
                hn == hay@.len(),
                nn == needle@.len(),
                i + nn <= hn,
                j <= nn,
                matched || j == nn,
                matched == (forall|k: int| 0 <= k < j ==> hay@[i + k] == needle@[k]),
            decreases nn - j,
        {
            if hay[i + j] != needle[j] {
                matched = false;
                proof {
                    assert(hay@[i + j as int] != needle@[j as int]);
                }
                j = nn;
            } else {
                proof {
                    assert(forall|k: int| 0 <= k < j + 1 ==> hay@[i + k] == needle@[k]);
                }
                j = j + 1;
            }
        }
        if matched {
            proof {
                assert(hay@.subrange(i as int, i + needle@.len()) =~= needle@);
            }
            return true;
        }
        proof {
            if hay@.subrange(i as int, i + needle@.len()) == needle@ {
                assert(forall|k: int|
                    0 <= k < nn ==> hay@[i + k] == #[trigger] hay@.subrange(
                        i as int,
                        i + needle@.len(),
                    )[k]);
            }
        }
        i = i + 1;
    }
    proof {
        assert(!contains_seq(hay@, needle@));
    }
    false
}

} // verus!
