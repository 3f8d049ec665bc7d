//! Case-sensitive substring containment and lexicographic ordering on
//! character sequences, with executable checks proved against them.

use vstd::prelude::*;

verus! {

/// `pat` occurs in `text` starting at position `i`.
pub open spec fn occurs_at(text: Seq<char>, pat: Seq<char>, i: int) -> bool {
    &&& 0 <= i
    &&& i + pat.len() <= text.len()
    &&& text.subrange(i, i + pat.len() as int) == pat
}

/// Ordinary case-sensitive containment: `pat` occurs somewhere in `text`.
pub open spec fn contains_seq(text: Seq<char>, pat: Seq<char>) -> bool {
    exists|i: int| occurs_at(text, pat, i)
}

/// Checks one candidate position for a match.
fn match_at(text: &str, pat: &str, i: usize) -> (r: bool)
    requires
        text@.len() <= usize::MAX,
        i + pat@.len() <= text@.len(),
    ensures
        r == occurs_at(text@, pat@, i as int),
{
    let pat_len = pat.unicode_len();
    let mut j: usize = 0;
    while j < pat_len
        invariant
            text@.len() <= usize::MAX,
            i + pat@.len() <= text@.len(),
            pat_len == pat@.len(),
            j <= pat_len,
            forall|k: int| 0 <= k < j ==> text@[i + k] == pat@[k],
        decreases pat_len - j,
    {
        if text.get_char(i + j) != pat.get_char(j) {
            assert(!occurs_at(text@, pat@, i as int)) by {
                if occurs_at(text@, pat@, i as int) {
                    assert(text@.subrange(i as int, i + pat@.len() as int)[j as int]
                        == pat@[j as int]);
                }
            }
            return false;
        }
        j += 1;
    }
    assert(text@.subrange(i as int, i + pat@.len() as int) =~= pat@);
    true
}

/// Executable containment check: true exactly when `pat` is a substring
/// of `text`.
pub fn contains_substring(text: &str, pat: &str) -> (r: bool)
    ensures
        r == contains_seq(text@, pat@),
{
    let text_len = text.unicode_len();
    let pat_len = pat.unicode_len();
    if pat_len > text_len {
        return false;
    }
    if pat_len == 0 {
        assert(text@.subrange(0, 0) =~= pat@);
        assert(occurs_at(text@, pat@, 0));
        return true;
    }
    let mut i: usize = 0;
    while i <= text_len - pat_len
        invariant
            text_len == text@.len(),
            pat_len == pat@.len(),
            0 < pat_len <= text_len,
            i <= text_len - pat_len + 1,
            forall|k: int| 0 <= k < i ==> !occurs_at(text@, pat@, k),
        decreases text_len - i,
    {
        if match_at(text, pat, i) {
            return true;
        }
        i += 1;
    }
    false
}

/// Lexicographic "less than or equal" on character sequences, ordered by
/// code point; a proper prefix precedes every extension of it. Agrees with
/// the ordering `str` comparison uses, since code-point order and UTF-8
/// byte order coincide.
pub open spec fn lex_leq(a: Seq<char>, b: Seq<char>) -> bool
    decreases a.len(),
{
    if a.len() == 0 {
        true
    } else if b.len() == 0 {
        false
    } else if (a[0] as u32) < (b[0] as u32) {
        true
    } else if (b[0] as u32) < (a[0] as u32) {
        false
    } else {
        lex_leq(a.drop_first(), b.drop_first())
    }
}

/// Any two character sequences are comparable.
pub proof fn lex_leq_total(a: Seq<char>, b: Seq<char>)
    ensures
        lex_leq(a, b) || lex_leq(b, a),
    decreases a.len(),
{
    if a.len() > 0 && b.len() > 0 && (a[0] as u32) == (b[0] as u32) {
        lex_leq_total(a.drop_first(), b.drop_first());
    }
}

/// Lexicographic order is transitive.
pub proof fn lex_leq_trans(a: Seq<char>, b: Seq<char>, c: Seq<char>)
    requires
        lex_leq(a, b),
        lex_leq(b, c),
    ensures
        lex_leq(a, c),
    decreases a.len(),
{
    if a.len() > 0 && b.len() > 0 && c.len() > 0
        && (a[0] as u32) == (b[0] as u32) && (b[0] as u32) == (c[0] as u32) {
        lex_leq_trans(a.drop_first(), b.drop_first(), c.drop_first());
    }
}

/// Executable comparison: true exactly when `a` precedes or equals `b`
/// in lexicographic order.
pub fn str_leq(a: &str, b: &str) -> (r: bool)
    ensures
        r == lex_leq(a@, b@),
{
    let a_len = a.unicode_len();
    let b_len = b.unicode_len();
    let mut i: usize = 0;
    proof {
        assert(a@.skip(0) =~= a@);
        assert(b@.skip(0) =~= b@);
    }
    loop
        invariant
            a_len == a@.len(),
            b_len == b@.len(),
            i <= a_len,
            i <= b_len,
            lex_leq(a@, b@) == lex_leq(a@.skip(i as int), b@.skip(i as int)),
        decreases a_len - i,
    {
        if i == a_len {
            return true;
        }
        if i == b_len {
            return false;
        }
        let ca = a.get_char(i);
        let cb = b.get_char(i);
        if (ca as u32) < (cb as u32) {
            return true;
        }
        if (cb as u32) < (ca as u32) {
            return false;
        }
        proof {
            assert(a@.skip(i as int).drop_first() =~= a@.skip(i as int + 1));
            assert(b@.skip(i as int).drop_first() =~= b@.skip(i as int + 1));
        }
        i += 1;
    }
}

} // verus!
