//! Construction of the candidate character pool.
//!
//! The pool is an ordered sequence of characters: the enabled built-in
//! categories (digits, uppercase letters, lowercase letters) followed by the
//! special characters verbatim, with every excluded character removed and,
//! when requested, every visually ambiguous character removed. Overlapping
//! entries are kept; only the filters remove anything.

use vstd::prelude::*;

verus! {

/// The decimal digit category, in order.
pub open spec fn digit_chars() -> Seq<char> {
    seq!['0', '1', '2', '3', '4', '5', '6', '7', '8', '9']
}

/// The uppercase ASCII letter category, in order.
pub open spec fn upper_chars() -> Seq<char> {
    seq![
        'A', 'B', 'C', 'D', 'E', 'F', 'G', 'H', 'I', 'J', 'K', 'L', 'M',
        'N', 'O', 'P', 'Q', 'R', 'S', 'T', 'U', 'V', 'W', 'X', 'Y', 'Z',
    ]
}

/// The lowercase ASCII letter category, in order.
pub open spec fn lower_chars() -> Seq<char> {
    seq![
        'a', 'b', 'c', 'd', 'e', 'f', 'g', 'h', 'i', 'j', 'k', 'l', 'm',
        'n', 'o', 'p', 'q', 'r', 's', 't', 'u', 'v', 'w', 'x', 'y', 'z',
    ]
}

/// The fixed set of visually ambiguous characters removed by `no_similar`.
pub open spec fn similar_chars() -> Seq<char> {
    seq!['i', 'I', 'l', '1', 'L', 'o', '0', 'O']
}

/// The candidate characters before filtering: the enabled categories in
/// order, then the special characters verbatim (repeats kept).
pub open spec fn raw_pool(
    include_numbers: bool,
    include_upper: bool,
    include_lower: bool,
    special: Seq<char>,
) -> Seq<char> {
    (if include_numbers {
        digit_chars()
    } else {
        Seq::<char>::empty()
    }) + (if include_upper {
        upper_chars()
    } else {
        Seq::<char>::empty()
    }) + (if include_lower {
        lower_chars()
    } else {
        Seq::<char>::empty()
    }) + special
}

/// Whether `c` survives the exclusion filter and, when `no_similar` is
/// requested, the similarity filter.
pub open spec fn keeps(c: char, exclude: Seq<char>, no_similar: bool) -> bool {
    !exclude.contains(c) && !(no_similar && similar_chars().contains(c))
}

/// The effective character pool of one generation request: the raw pool with
/// every non-kept character removed, order preserved.
pub open spec fn pool_spec(
    include_numbers: bool,
    include_upper: bool,
    include_lower: bool,
    special: Seq<char>,
    exclude: Seq<char>,
    no_similar: bool,
) -> Seq<char> {
    raw_pool(include_numbers, include_upper, include_lower, special).filter(
        |c: char| keeps(c, exclude, no_similar),
    )
}

/// Whether `s` has a character equal to `c`.
pub fn contains_char(s: &str, c: char) -> (r: bool)
    ensures
        r == s@.contains(c),
{
    let n = s.unicode_len();
    let mut i: usize = 0;
    while i < n
        invariant
            n == s@.len(),
            i <= n,
            forall|j: int| 0 <= j < i ==> s@[j] != c,
        decreases n - i,
    {
        if s.get_char(i) == c {
            assert(s@[i as int] == c);
            return true;
        }
        i = i + 1;
    }
    assert(!s@.contains(c));
    false
}

/// Appends every character of `s` to `v`, in order.
fn push_str_chars(v: &mut Vec<char>, s: &str)
    ensures
        final(v)@ == old(v)@ + s@,
{
    let n = s.unicode_len();
    let mut i: usize = 0;
    while i < n
        invariant
            n == s@.len(),
            i <= n,
            v@ == old(v)@ + s@.take(i as int),
        decreases n - i,
    {
        v.push(s.get_char(i));
        proof {
            assert(s@.take(i + 1) =~= s@.take(i as int).push(s@[i as int]));
        }
        i = i + 1;
    }
    proof {
        assert(s@.take(n as int) =~= s@);
    }
}

/// A filtered singleton keeps its element exactly when the predicate holds.
proof fn lemma_filter_singleton(c: char, pred: spec_fn(char) -> bool)
    ensures
        pred(c) ==> seq![c].filter(pred) == seq![c],
        !pred(c) ==> seq![c].filter(pred) == Seq::<char>::empty(),
{
    reveal_with_fuel(Seq::filter, 2);
    assert(seq![c].drop_last() =~= Seq::<char>::empty());
    assert(seq![c].last() == c);
    if pred(c) {
        assert(seq![c].filter(pred) =~= seq![c]);
    } else {
        assert(seq![c].filter(pred) =~= Seq::<char>::empty());
    }
}

/// Every character of a filtered sequence occurs in the sequence it was
/// filtered from.
proof fn lemma_filter_in_source(s: Seq<char>, pred: spec_fn(char) -> bool)
    ensures
        forall|i: int|
            0 <= i < s.filter(pred).len() ==> s.contains(#[trigger] s.filter(pred)[i]),
    decreases s.len(),
{
    reveal(Seq::filter);
    if s.len() == 0 {
    } else {
        let dl = s.drop_last();
        lemma_filter_in_source(dl, pred);
        assert forall|i: int|
            0 <= i < s.filter(pred).len() implies s.contains(#[trigger] s.filter(pred)[i]) by {
            let f = s.filter(pred);
            if i < dl.filter(pred).len() {
                assert(f[i] == dl.filter(pred)[i]);
                assert(dl.contains(dl.filter(pred)[i]));
                let j = choose|j: int| 0 <= j < dl.len() && dl[j] == dl.filter(pred)[i];
                assert(s[j] == f[i]);
            } else {
                assert(f[i] == s.last());
                assert(s[s.len() - 1] == s.last());
            }
        }
    }
}

/// Every member of the effective pool survives both filters: it is not an
/// excluded character and, under `no_similar`, not a visually ambiguous one.
pub proof fn lemma_pool_member_keeps(
    include_numbers: bool,
    include_upper: bool,
    include_lower: bool,
    special: Seq<char>,
    exclude: Seq<char>,
    no_similar: bool,
    c: char,
)
    requires
        pool_spec(include_numbers, include_upper, include_lower, special, exclude,
            no_similar).contains(c),
    ensures
        keeps(c, exclude, no_similar),
{
    let raw = raw_pool(include_numbers, include_upper, include_lower, special);
    let pred = |x: char| keeps(x, exclude, no_similar);
    let p = raw.filter(pred);
    let j = choose|j: int| 0 <= j < p.len() && p[j] == c;
    raw.lemma_filter_pred(pred, j);
}

/// Every member of the effective pool comes from the raw pool: it belongs to
/// an enabled category or to the special characters.
pub proof fn lemma_pool_member_source(
    include_numbers: bool,
    include_upper: bool,
    include_lower: bool,
    special: Seq<char>,
    exclude: Seq<char>,
    no_similar: bool,
    c: char,
)
    requires
        pool_spec(include_numbers, include_upper, include_lower, special, exclude,
            no_similar).contains(c),
    ensures
        raw_pool(include_numbers, include_upper, include_lower, special).contains(c),
{
    let raw = raw_pool(include_numbers, include_upper, include_lower, special);
    let pred = |x: char| keeps(x, exclude, no_similar);
    let p = raw.filter(pred);
    lemma_filter_in_source(raw, pred);
    let j = choose|j: int| 0 <= j < p.len() && p[j] == c;
    assert(raw.contains(p[j]));
}

/// A filter whose predicate holds of every element changes nothing.
proof fn lemma_filter_all_kept(s: Seq<char>, pred: spec_fn(char) -> bool)
    requires
        forall|i: int| 0 <= i < s.len() ==> pred(#[trigger] s[i]),
    ensures
        s.filter(pred) == s,
    decreases s.len(),
{
    reveal(Seq::filter);
    if s.len() == 0 {
        assert(s.filter(pred) =~= s);
    } else {
        let dl = s.drop_last();
        assert(forall|i: int| 0 <= i < dl.len() ==> pred(#[trigger] dl[i]));
        lemma_filter_all_kept(dl, pred);
        assert(pred(s.last()));
        assert(s.filter(pred) =~= s);
    }
}

/// Law: with nothing excluded and the similarity filter off, the effective
/// pool is exactly the raw pool, so any enabled category or special
/// character makes the pool non-empty.
pub proof fn lemma_no_filters_pool_full(
    include_numbers: bool,
    include_upper: bool,
    include_lower: bool,
    special: Seq<char>,
    exclude: Seq<char>,
)
    requires
        exclude.len() == 0,
    ensures
        pool_spec(include_numbers, include_upper, include_lower, special, exclude, false)
            == raw_pool(include_numbers, include_upper, include_lower, special),
{
    let raw = raw_pool(include_numbers, include_upper, include_lower, special);
    let pred = |c: char| keeps(c, exclude, false);
    assert forall|i: int| 0 <= i < raw.len() implies pred(#[trigger] raw[i]) by {
        assert(!exclude.contains(raw[i]));
    }
    lemma_filter_all_kept(raw, pred);
}

/// Law: a request that enables no category and gives no special characters
/// has an empty effective pool, whatever the filters say.
pub proof fn lemma_empty_request_empty_pool(
    special: Seq<char>,
    exclude: Seq<char>,
    no_similar: bool,
)
    requires
        special.len() == 0,
    ensures
        pool_spec(false, false, false, special, exclude, no_similar).len() == 0,
{
    let raw = raw_pool(false, false, false, special);
    let pred = |c: char| keeps(c, exclude, no_similar);
    assert(raw =~= Seq::<char>::empty());
    raw.lemma_filter_len(pred);
}

/// Law: when only the number category is enabled and no special characters
/// are given, every character of a password drawn from the pool is a
/// decimal digit.
pub proof fn lemma_numbers_only_digits(
    special: Seq<char>,
    exclude: Seq<char>,
    no_similar: bool,
    pw: Seq<char>,
)
    requires
        special.len() == 0,
        forall|i: int|
            0 <= i < pw.len() ==> pool_spec(true, false, false, special, exclude,
                no_similar).contains(#[trigger] pw[i]),
    ensures
        forall|i: int| 0 <= i < pw.len() ==> digit_chars().contains(#[trigger] pw[i]),
{
    assert forall|i: int| 0 <= i < pw.len() implies digit_chars().contains(#[trigger] pw[i]) by {
        lemma_pool_member_source(true, false, false, special, exclude, no_similar, pw[i]);
        assert(raw_pool(true, false, false, special) =~= digit_chars());
    }
}

/// Law: when only alphabetic categories are enabled (numbers off, no special
/// characters), every character of a password drawn from the pool is an
/// ASCII letter.
pub proof fn lemma_alpha_only_letters(
    include_upper: bool,
    include_lower: bool,
    special: Seq<char>,
    exclude: Seq<char>,
    no_similar: bool,
    pw: Seq<char>,
)
    requires
        special.len() == 0,
        forall|i: int|
            0 <= i < pw.len() ==> pool_spec(false, include_upper, include_lower, special, exclude,
                no_similar).contains(#[trigger] pw[i]),
    ensures
        forall|i: int|
            0 <= i < pw.len() ==> upper_chars().contains(#[trigger] pw[i]) || lower_chars().contains(
                pw[i],
            ),
{
    assert forall|i: int|
        0 <= i < pw.len() implies upper_chars().contains(#[trigger] pw[i])
        || lower_chars().contains(pw[i]) by {
        lemma_pool_member_source(false, include_upper, include_lower, special, exclude, no_similar,
            pw[i]);
        let raw = raw_pool(false, include_upper, include_lower, special);
        let up = if include_upper {
            upper_chars()
        } else {
            Seq::<char>::empty()
        };
        let low = if include_lower {
            lower_chars()
        } else {
            Seq::<char>::empty()
        };
        assert(raw =~= up + low);
        let j = choose|j: int| 0 <= j < raw.len() && raw[j] == pw[i];
        if j < up.len() {
            assert(up[j] == pw[i]);
            assert(upper_chars().contains(pw[i]));
        } else {
            assert(low[j - up.len()] == pw[i]);
            assert(lower_chars().contains(pw[i]));
        }
    }
}

/// Law: with every built-in category disabled, every character of a
/// password drawn from the pool is one of the special characters.
pub proof fn lemma_specials_only_members(
    special: Seq<char>,
    exclude: Seq<char>,
    no_similar: bool,
    pw: Seq<char>,
)
    requires
        forall|i: int|
            0 <= i < pw.len() ==> pool_spec(false, false, false, special, exclude,
                no_similar).contains(#[trigger] pw[i]),
    ensures
        forall|i: int| 0 <= i < pw.len() ==> special.contains(#[trigger] pw[i]),
{
    assert forall|i: int| 0 <= i < pw.len() implies special.contains(#[trigger] pw[i]) by {
        lemma_pool_member_source(false, false, false, special, exclude, no_similar, pw[i]);
        assert(raw_pool(false, false, false, special) =~= special);
    }
}

/// Builds the effective character pool of one request: the enabled
/// categories and the special characters, with excluded and (optionally)
/// visually ambiguous characters removed.
pub fn build_pool(
    include_numbers: bool,
    include_upper_alphabets: bool,
    include_lower_alphabets: bool,
    special_chars: &str,
    exclude_chars: &str,
    no_similar: bool,
) -> (pool: Vec<char>)
    ensures
        pool@ == pool_spec(include_numbers, include_upper_alphabets, include_lower_alphabets,
            special_chars@, exclude_chars@, no_similar),
{
    let mut raw: Vec<char> = Vec::new();
    if include_numbers {
        push_str_chars(&mut raw, "0123456789");
        proof {
            reveal_strlit("0123456789");
            assert("0123456789"@ =~= digit_chars());
        }
    }
    if include_upper_alphabets {
        push_str_chars(&mut raw, "ABCDEFGHIJKLMNOPQRSTUVWXYZ");
        proof {
            reveal_strlit("ABCDEFGHIJKLMNOPQRSTUVWXYZ");
            assert("ABCDEFGHIJKLMNOPQRSTUVWXYZ"@ =~= upper_chars());
        }
    }
    if include_lower_alphabets {
        push_str_chars(&mut raw, "abcdefghijklmnopqrstuvwxyz");
        proof {
            reveal_strlit("abcdefghijklmnopqrstuvwxyz");
            assert("abcdefghijklmnopqrstuvwxyz"@ =~= lower_chars());
        }
    }
    push_str_chars(&mut raw, special_chars);
    proof {
        assert(raw@ =~= raw_pool(include_numbers, include_upper_alphabets,
            include_lower_alphabets, special_chars@));
    }

    let ghost pred = |c: char| keeps(c, exclude_chars@, no_similar);
    let mut pool: Vec<char> = Vec::new();
    let mut i: usize = 0;
    while i < raw.len()
        invariant
            i <= raw@.len(),
            pool@ == raw@.take(i as int).filter(pred),
            pred == (|c: char| keeps(c, exclude_chars@, no_similar)),
        decreases raw@.len() - i,
    {
        let c = raw[i];
        let mut keep: bool = !contains_char(exclude_chars, c);
        if keep && no_similar {
            if contains_char("iIl1Lo0O", c) {
                keep = false;
            }
            proof {
                reveal_strlit("iIl1Lo0O");
                assert("iIl1Lo0O"@ =~= similar_chars());
            }
        }
        assert(keep == keeps(c, exclude_chars@, no_similar));
        if keep {
            pool.push(c);
        }
        proof {
            let a = raw@.take(i as int);
            assert(raw@.take(i + 1) =~= a + seq![c]);
            Seq::filter_distributes_over_add(a, seq![c], pred);
            lemma_filter_singleton(c, pred);
        }
        i = i + 1;
    }
    proof {
        assert(raw@.take(raw@.len() as int) =~= raw@);
    }
    pool
}

} // verus!
