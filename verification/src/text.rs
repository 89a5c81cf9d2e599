//! Plain text as sequences of characters: comparison, search and replacement.

use vstd::prelude::*;
use vstd::string::*;

verus! {

/// The characters of `s`, in order.
pub fn chars_of(s: &str) -> (v: Vec<char>)
    ensures
        v@ == s@,
{
    let mut v: Vec<char> = Vec::new();
    for c in it: s.chars()
        invariant
            it.seq() == s@,
            v@ == it.seq().take(it.index()),
    {
        v.push(c);
    }
    v
}

/// Whether two texts hold the same characters.
pub fn same_text(a: &str, b: &str) -> (r: bool)
    ensures
        r == (a@ == b@),
{
    let left = String::from_str(a);
    let right = String::from_str(b);
    left == right
}

/// `pattern` stands in `text` at position `at`.
pub open spec fn occurs_at(text: Seq<char>, pattern: Seq<char>, at: int) -> bool {
    &&& 0 <= at
    &&& at + pattern.len() <= text.len()
    &&& text.subrange(at, at + pattern.len()) == pattern
}

/// Decides whether `pattern` stands in `text` at position `at`.
pub fn matches_at(text: &Vec<char>, pattern: &Vec<char>, at: usize) -> (r: bool)
    ensures
        r == occurs_at(text@, pattern@, at as int),
{
    if at > text.len() || pattern.len() > text.len() - at {
        return false;
    }
    let mut k: usize = 0;
    while k < pattern.len()
        invariant
            at + pattern.len() <= text.len(),
            k <= pattern.len(),
            forall|j: int| 0 <= j < k ==> text@[at + j] == pattern@[j],
        decreases pattern.len() - k,
    {
        if text[at + k] != pattern[k] {
            proof {
                assert(text@.subrange(at as int, at + pattern.len())[k as int] == text@[at + k]);
            }
            return false;
        }
        k += 1;
    }
    proof {
        assert(text@.subrange(at as int, at + pattern.len()) =~= pattern@);
    }
    true
}

/// `text` with `with` put before each of its characters and after the last one.
pub open spec fn interleaved(text: Seq<char>, with: Seq<char>) -> Seq<char>
    decreases text.len(),
{
    if text.len() == 0 {
        with
    } else {
        with + text.take(1) + interleaved(text.skip(1), with)
    }
}

/// `text` with every occurrence of `pattern` replaced by `with`. Occurrences are found from
/// left to right and do not overlap: the search goes on behind an occurrence that was replaced.
/// An empty pattern occurs before every character and at the end.
pub open spec fn replaced(text: Seq<char>, pattern: Seq<char>, with: Seq<char>) -> Seq<char>
    decreases text.len(),
{
    if pattern.len() == 0 {
        interleaved(text, with)
    } else if text.len() < pattern.len() {
        text
    } else if occurs_at(text, pattern, 0) {
        with + replaced(text.skip(pattern.len() as int), pattern, with)
    } else {
        text.take(1) + replaced(text.skip(1), pattern, with)
    }
}

/// An occurrence at the start of what is left of a text is an occurrence in the text.
proof fn lemma_occurs_in_suffix(text: Seq<char>, pattern: Seq<char>, at: int)
    requires
        0 <= at <= text.len(),
    ensures
        occurs_at(text.skip(at), pattern, 0) == occurs_at(text, pattern, at),
{
    if at + pattern.len() <= text.len() {
        assert(text.skip(at).subrange(0, pattern.len() as int) =~= text.subrange(
            at,
            at + pattern.len(),
        ));
    }
}

/// A text in which the pattern does not occur comes out as it went in.
pub proof fn lemma_nothing_to_replace(text: Seq<char>, pattern: Seq<char>, with: Seq<char>)
    requires
        pattern.len() > 0,
        forall|at: int| !occurs_at(text, pattern, at),
    ensures
        replaced(text, pattern, with) == text,
    decreases text.len(),
{
    if text.len() >= pattern.len() {
        let rest = text.skip(1);
        assert forall|at: int| !occurs_at(rest, pattern, at) by {
            if 0 <= at && at + pattern.len() <= rest.len() {
                assert(!occurs_at(text, pattern, at + 1));
                assert(rest.subrange(at, at + pattern.len()) =~= text.subrange(
                    at + 1,
                    at + 1 + pattern.len(),
                ));
            }
        }
        lemma_nothing_to_replace(rest, pattern, with);
        assert(text.take(1) + rest =~= text);
    }
}

/// Every occurrence is replaced, not only the first: behind an occurrence at the start of
/// the text, the rest of the text is dealt with in the same way.
pub proof fn lemma_replaced_goes_on(
    pattern: Seq<char>,
    rest: Seq<char>,
    with: Seq<char>,
)
    requires
        pattern.len() > 0,
    ensures
        replaced(pattern + rest, pattern, with) == with + replaced(rest, pattern, with),
{
    let text = pattern + rest;
    assert(text.subrange(0, pattern.len() as int) =~= pattern);
    assert(text.skip(pattern.len() as int) =~= rest);
}

/// Replaces every occurrence of `pattern` in `text` by `with`.
pub fn replace_all(text: &str, pattern: &str, with: &str) -> (out: String)
    ensures
        out@ == replaced(text@, pattern@, with@),
{
    let t = chars_of(text);
    let p = chars_of(pattern);
    let mut out = String::new();
    proof {
        assert(t@.skip(0) =~= t@);
    }
    if p.len() == 0 {
        let mut i: usize = 0;
        assert(out@ + interleaved(t@, with@) =~= interleaved(t@, with@));
        while i < t.len()
            invariant
                i <= t.len(),
                t@ == text@,
                out@ + interleaved(t@.skip(i as int), with@) == interleaved(t@, with@),
            decreases t.len() - i,
        {
            let ghost before = out@;
            out.append(with);
            out.append(text.substring_char(i, i + 1));
            proof {
                let rest = t@.skip(i as int);
                assert(rest.take(1) =~= t@.subrange(i as int, i + 1));
                assert(rest.skip(1) =~= t@.skip(i + 1));
                assert(out@ + interleaved(rest.skip(1), with@) =~= before + (with@ + rest.take(1)
                    + interleaved(rest.skip(1), with@)));
            }
            i += 1;
        }
        out.append(with);
        return out;
    }
    let mut i: usize = 0;
    let mut start: usize = 0;
    assert(out@ + t@.subrange(0, 0) + replaced(t@, p@, with@) =~= replaced(t@, p@, with@));
    while i < t.len() && p.len() <= t.len() - i
        invariant
            start <= i <= t.len(),
            t@ == text@,
            p@ == pattern@,
            p@.len() > 0,
            out@ + t@.subrange(start as int, i as int) + replaced(t@.skip(i as int), p@, with@)
                == replaced(t@, p@, with@),
        decreases t.len() - i,
    {
        let ghost before = out@;
        let ghost rest = t@.skip(i as int);
        proof {
            lemma_occurs_in_suffix(t@, p@, i as int);
        }
        if matches_at(&t, &p, i) {
            out.append(text.substring_char(start, i));
            out.append(with);
            proof {
                assert(rest.skip(p@.len() as int) =~= t@.skip(i + p@.len()));
                assert(out@ + t@.subrange(i + p@.len(), i + p@.len()) + replaced(
                    t@.skip(i + p@.len()),
                    p@,
                    with@,
                ) =~= before + t@.subrange(start as int, i as int) + (with@ + replaced(
                    rest.skip(p@.len() as int),
                    p@,
                    with@,
                )));
            }
            i += p.len();
            start = i;
        } else {
            proof {
                assert(rest.skip(1) =~= t@.skip(i + 1));
                assert(out@ + t@.subrange(start as int, i + 1) + replaced(t@.skip(i + 1), p@, with@)
                    =~= before + t@.subrange(start as int, i as int) + (rest.take(1) + replaced(
                    rest.skip(1),
                    p@,
                    with@,
                )));
            }
            i += 1;
        }
    }
    out.append(text.substring_char(start, t.len()));
    proof {
        assert(out@ =~= (out@.take(out@.len() - (t@.len() - start)) + t@.subrange(
            start as int,
            i as int,
        )) + t@.skip(i as int));
    }
    out
}

} // verus!
