//! Constrained random sampling from the character pool.
//!
//! Characters are drawn uniformly from the pool, with replacement, and
//! appended to the output; a draw is rejected (and simply redrawn) when it
//! would repeat an earlier character under `no_duplicates`, or sit next to a
//! codepoint-adjacent character under `no_sequential`. The pool itself is
//! never shrunk. A bounded retry budget turns the otherwise unbounded
//! rejection loop into one that provably terminates: once an entire budget
//! of successive draws for a single position has been rejected, sampling
//! gives up, which can only happen when a constraint was requested.

use crate::rng::draw_index;
use vstd::prelude::*;

verus! {

/// Upper bound on successive rejected draws for one output position before
/// sampling is abandoned as infeasible.
pub const MAX_CONSECUTIVE_REJECTS: usize = 100000;

/// Whether the codepoints of `a` and `b` differ by exactly one, in either
/// direction. This is raw ordinal adjacency: a digit and a symbol whose
/// codepoints happen to be neighbours count as sequential too.
pub open spec fn sequential(a: char, b: char) -> bool {
    a as u32 + 1 == b as u32 || b as u32 + 1 == a as u32
}

/// Whether `c` may be appended to `buf` under the requested constraints.
pub open spec fn eligible(buf: Seq<char>, c: char, no_duplicates: bool, no_sequential: bool) -> bool {
    (no_duplicates ==> !buf.contains(c)) && (no_sequential && buf.len() > 0 ==> !sequential(
        buf.last(),
        c,
    ))
}

/// Whether `s` as a whole honors the requested constraints: pairwise
/// distinct characters under `no_duplicates`, and no codepoint-adjacent
/// neighbouring pair under `no_sequential`.
pub open spec fn satisfies(s: Seq<char>, no_duplicates: bool, no_sequential: bool) -> bool {
    (no_duplicates ==> s.no_duplicates()) && (no_sequential ==> forall|i: int|
        0 <= i < s.len() - 1 ==> !sequential(#[trigger] s[i], s[i + 1]))
}

/// Whether the codepoints of `a` and `b` differ by exactly one.
pub fn is_sequential(a: char, b: char) -> (r: bool)
    ensures
        r == sequential(a, b),
{
    let au = a as u32;
    let bu = b as u32;
    au < u32::MAX && au + 1 == bu || bu < u32::MAX && bu + 1 == au
}

/// Whether `v` has a character equal to `c`.
pub fn vec_contains_char(v: &Vec<char>, c: char) -> (r: bool)
    ensures
        r == v@.contains(c),
{
    let mut i: usize = 0;
    while i < v.len()
        invariant
            i <= v@.len(),
            forall|j: int| 0 <= j < i ==> v@[j] != c,
        decreases v@.len() - i,
    {
        if v[i] == c {
            assert(v@[i as int] == c);
            return true;
        }
        i = i + 1;
    }
    assert(!v@.contains(c));
    false
}

/// Appends `c` to `buf` when the duplicate and adjacency constraints allow
/// it, and reports whether it did. The decision is a function of the buffer
/// and the candidate alone; the candidate may come from any source.
pub fn try_push(buf: &mut Vec<char>, c: char, no_duplicates: bool, no_sequential: bool) -> (pushed:
    bool)
    ensures
        pushed == eligible(old(buf)@, c, no_duplicates, no_sequential),
        pushed ==> final(buf)@ == old(buf)@.push(c),
        !pushed ==> final(buf)@ == old(buf)@,
{
    if no_duplicates && vec_contains_char(buf, c) {
        return false;
    }
    if no_sequential && buf.len() > 0 {
        let last = buf[buf.len() - 1];
        if is_sequential(last, c) {
            return false;
        }
    }
    buf.push(c);
    true
}

/// A buffer that honors the constraints still honors them after an eligible
/// character is appended.
proof fn lemma_satisfies_push(s: Seq<char>, c: char, no_duplicates: bool, no_sequential: bool)
    requires
        satisfies(s, no_duplicates, no_sequential),
        eligible(s, c, no_duplicates, no_sequential),
    ensures
        satisfies(s.push(c), no_duplicates, no_sequential),
{
    let t = s.push(c);
    if no_duplicates {
        assert forall|i: int, j: int| 0 <= i < j < t.len() implies t[i] != t[j] by {
            if j < s.len() {
                assert(t[i] == s[i] && t[j] == s[j]);
            } else {
                assert(t[j] == c);
                assert(t[i] == s[i]);
                assert(!s.contains(c));
            }
        }
    }
    if no_sequential {
        assert forall|i: int| 0 <= i < t.len() - 1 implies !sequential(#[trigger] t[i], t[i + 1]) by {
            if i < s.len() - 1 {
                assert(t[i] == s[i] && t[i + 1] == s[i + 1]);
            } else {
                assert(t[i] == s.last() && t[i + 1] == c);
            }
        }
    }
}

/// Draws characters uniformly from `pool`, with replacement, until `length`
/// characters have been accepted; a draw the constraints forbid is rejected
/// and redrawn. Returns `None` only when a whole retry budget of successive
/// draws for one position was rejected, which requires that a constraint was
/// requested; with no constraints requested the result is always `Some`.
pub fn sample(
    pool: &Vec<char>,
    length: usize,
    no_duplicates: bool,
    no_sequential: bool,
    rng: &mut rand::rngs::SmallRng,
) -> (out: Option<Vec<char>>)
    requires
        pool@.len() > 0,
    ensures
        match out {
            Some(pw) => pw@.len() == length && satisfies(pw@, no_duplicates, no_sequential) && (
            forall|i: int| 0 <= i < pw@.len() ==> pool@.contains(#[trigger] pw@[i])),
            None => no_duplicates || no_sequential,
        },
        !no_duplicates && !no_sequential ==> out is Some,
        length == 0 ==> out is Some,
{
    let mut pw: Vec<char> = Vec::new();
    let mut rejects: usize = 0;
    while pw.len() < length
        invariant
            pool@.len() > 0,
            pw@.len() <= length,
            satisfies(pw@, no_duplicates, no_sequential),
            forall|i: int| 0 <= i < pw@.len() ==> pool@.contains(#[trigger] pw@[i]),
            rejects <= MAX_CONSECUTIVE_REJECTS,
            !no_duplicates && !no_sequential ==> rejects == 0,
        decreases length - pw@.len(), MAX_CONSECUTIVE_REJECTS - rejects,
    {
        let idx = draw_index(rng, pool.len());
        let c = pool[idx];
        proof {
            assert(pool@[idx as int] == c);
            assert(pool@.contains(c));
        }
        let ghost before = pw@;
        if try_push(&mut pw, c, no_duplicates, no_sequential) {
            rejects = 0;
            proof {
                lemma_satisfies_push(before, c, no_duplicates, no_sequential);
            }
        } else {
            if rejects == MAX_CONSECUTIVE_REJECTS {
                return None;
            }
            rejects = rejects + 1;
        }
    }
    Some(pw)
}

} // verus!
