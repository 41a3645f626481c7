//! Fuzzy matching of a query against a session or repository name:
//! case-insensitive, preferring exact substrings, falling back to a
//! greedy character subsequence, with a score that rewards prefixes,
//! word boundaries and tight matches.

use vstd::prelude::*;

verus! {

/// What `char::to_lowercase` yields for one character.
pub uninterp spec fn lower_of(c: char) -> Seq<char>;

/// Relies on `char::to_lowercase`: the lowercase mapping of a
/// character, one or more characters, a function of the character
/// alone.
#[verifier::external_body]
fn char_lower(c: char) -> (r: Vec<char>)
    ensures
        r@ == lower_of(c),
        r@.len() >= 1,
{
    c.to_lowercase().collect()
}

/// A whole sequence lowered character by character.
pub open spec fn lower_seq(s: Seq<char>) -> Seq<char>
    decreases s.len(),
{
    if s.len() == 0 {
        Seq::<char>::empty()
    } else {
        lower_of(s[0]) + lower_seq(s.drop_first())
    }
}

/// Lowering a sequence extended by one character appends that
/// character's lowering.
proof fn lemma_lower_seq_push(s: Seq<char>, c: char)
    ensures
        lower_seq(s.push(c)) == lower_seq(s) + lower_of(c),
    decreases s.len(),
{
    if s.len() == 0 {
        assert(s.push(c)[0] == c);
        assert(s.push(c).drop_first() =~= Seq::<char>::empty());
        assert(lower_seq(s.push(c)) == lower_of(c) + lower_seq(Seq::<char>::empty()));
        assert(lower_of(c) + Seq::<char>::empty() =~= lower_of(c));
        assert(lower_seq(s) + lower_of(c) =~= lower_of(c));
    } else {
        assert(s.push(c)[0] == s[0]);
        assert(s.push(c).drop_first() =~= s.drop_first().push(c));
        lemma_lower_seq_push(s.drop_first(), c);
    }
}

/// Lower every character of `s` into one flat character vector.
pub fn lower_chars(s: &str) -> (r: Vec<char>)
    ensures
        r@ == lower_seq(s@),
{
    let n = s.unicode_len();
    let mut out: Vec<char> = Vec::new();
    let mut i: usize = 0;
    while i < n
        invariant
            i <= n,
            n == s@.len(),
            out@ == lower_seq(s@.take(i as int)),
        decreases n - i,
    {
        let c = s.get_char(i);
        let mut low = char_lower(c);
        proof {
            assert(s@.take(i + 1) =~= s@.take(i as int).push(s@[i as int]));
            lemma_lower_seq_push(s@.take(i as int), c);
        }
        out.append(&mut low);
        i = i + 1;
    }
    proof {
        assert(s@.take(n as int) =~= s@);
    }
    out
}

/// Whether `needle` occurs in `hay` starting at `i`.
pub open spec fn substring_at(hay: Seq<char>, needle: Seq<char>, i: int) -> bool {
    0 <= i && i + needle.len() <= hay.len() && hay.subrange(i, i + needle.len()) == needle
}

/// The first position at or after `start` where `needle` occurs.
pub open spec fn find_sub_from(hay: Seq<char>, needle: Seq<char>, start: int) -> Option<int>
    decreases hay.len() + 1 - start,
{
    if start < 0 || start + needle.len() > hay.len() {
        Option::None
    } else if substring_at(hay, needle, start) {
        Option::Some(start)
    } else {
        find_sub_from(hay, needle, start + 1)
    }
}

/// Whether the character before `p` (or the start of the string)
/// makes `p` a word boundary.
pub open spec fn is_boundary(hay: Seq<char>, p: int) -> bool {
    p == 0 || hay[p - 1] == '-' || hay[p - 1] == '_' || hay[p - 1] == '/' || hay[p - 1] == '.'
        || hay[p - 1] == ' '
}

/// The score of an exact substring match at `start`: a large base, a
/// prefix bonus, and a word-boundary bonus.
pub open spec fn substring_score(hay: Seq<char>, start: int) -> int {
    10000 + (if start == 0 {
        5000int
    } else {
        0int
    }) + (if is_boundary(hay, start) {
        3000int
    } else {
        0int
    })
}

/// The first position at or after `start` holding character `c`.
pub open spec fn first_occ(hay: Seq<char>, c: char, start: int) -> Option<int>
    decreases hay.len() - start,
{
    if start < 0 || start >= hay.len() {
        Option::None
    } else if hay[start] == c {
        Option::Some(start)
    } else {
        first_occ(hay, c, start + 1)
    }
}

/// The greedy subsequence match: each needle character takes the first
/// occurrence after the previous one.
pub open spec fn greedy_from(hay: Seq<char>, needle: Seq<char>, start: int) -> Option<Seq<int>>
    decreases needle.len(),
{
    if needle.len() == 0 {
        Option::Some(Seq::<int>::empty())
    } else {
        match first_occ(hay, needle[0], start) {
            Option::Some(i) => match greedy_from(hay, needle.drop_first(), i + 1) {
                Option::Some(rest) => Option::Some(seq![i] + rest),
                Option::None => Option::None,
            },
            Option::None => Option::None,
        }
    }
}

/// The per-position part of the subsequence score: a bonus for each
/// position adjacent to its predecessor and for each word boundary.
pub open spec fn subseq_bonus(hay: Seq<char>, pos: Seq<int>, i: int) -> int
    decreases pos.len() - i,
{
    if i < 0 || i >= pos.len() {
        0
    } else {
        (if i > 0 && pos[i] == pos[i - 1] + 1 {
            50int
        } else {
            0int
        }) + (if is_boundary(hay, pos[i]) {
            20int
        } else {
            0int
        }) + subseq_bonus(hay, pos, i + 1)
    }
}

/// The full subsequence score: the bonuses minus the spread between
/// the first and last matched positions.
pub open spec fn subseq_score(hay: Seq<char>, pos: Seq<int>) -> int {
    subseq_bonus(hay, pos, 0) - (if pos.len() > 0 {
        pos.last() - pos.first()
    } else {
        0int
    })
}

/// The result of the whole match on lowered text: empty needles match
/// with no positions; an exact substring wins with its score; else the
/// greedy subsequence, if it exists, with its score.
pub open spec fn fuzzy_spec(hay: Seq<char>, needle: Seq<char>) -> Option<(Seq<int>, int)> {
    if needle.len() == 0 {
        Option::Some((Seq::<int>::empty(), 0int))
    } else {
        match find_sub_from(hay, needle, 0) {
            Option::Some(start) => Option::Some(
                (Seq::new(needle.len(), |k: int| start + k), substring_score(hay, start)),
            ),
            Option::None => match greedy_from(hay, needle, 0) {
                Option::Some(ps) => Option::Some((ps, subseq_score(hay, ps))),
                Option::None => Option::None,
            },
        }
    }
}

/// A found first occurrence agrees with `first_occ`.
proof fn lemma_first_occ_found(hay: Seq<char>, c: char, start: int, i: int)
    requires
        0 <= start <= i < hay.len(),
        hay[i] == c,
        forall|m: int| start <= m < i ==> hay[m] != c,
    ensures
        first_occ(hay, c, start) == Option::Some(i),
    decreases i - start,
{
    if start < i {
        lemma_first_occ_found(hay, c, start + 1, i);
    }
}

/// When no occurrence exists at or after `start`, `first_occ` is None.
proof fn lemma_first_occ_none(hay: Seq<char>, c: char, start: int)
    requires
        start >= 0,
        forall|m: int| start <= m < hay.len() ==> hay[m] != c,
    ensures
        first_occ(hay, c, start) is None,
    decreases hay.len() - start,
{
    if start < hay.len() {
        lemma_first_occ_none(hay, c, start + 1);
    }
}

/// The bonus part of the score is non-negative and bounded by seventy
/// points per matched position.
proof fn lemma_subseq_bonus_bounds(hay: Seq<char>, pos: Seq<int>, i: int)
    requires
        0 <= i <= pos.len(),
    ensures
        0 <= subseq_bonus(hay, pos, i) <= 70 * (pos.len() - i),
    decreases pos.len() - i,
{
    if i < pos.len() {
        lemma_subseq_bonus_bounds(hay, pos, i + 1);
    }
}

/// The first position at or after `start` where `needle` occurs in
/// `haystack`, if any.
pub fn find_substring_pos(haystack: &Vec<char>, needle: &Vec<char>) -> (r: Option<usize>)
    ensures
        (match r {
            Option::Some(i) => find_sub_from(haystack@, needle@, 0) == Option::Some(i as int),
            Option::None => find_sub_from(haystack@, needle@, 0) is None,
        }),
{
    let hlen = haystack.len();
    let nlen = needle.len();
    if nlen > hlen {
        return Option::None;
    }
    let mut start: usize = 0;
    while start <= hlen - nlen
        invariant
            nlen <= hlen,
            hlen == haystack@.len(),
            nlen == needle@.len(),
            start <= hlen - nlen + 1,
            find_sub_from(haystack@, needle@, 0) == find_sub_from(haystack@, needle@,
                start as int),
        decreases hlen - nlen - start + 1,
    {
        let mut k: usize = 0;
        let mut matched = true;
        while k < nlen && matched
            invariant
                k <= nlen,
                nlen <= hlen,
                start <= hlen - nlen,
                hlen == haystack@.len(),
                nlen == needle@.len(),
                matched ==> (forall|m: int|
                    0 <= m < k ==> haystack@[start + m] == needle@[m]),
                !matched ==> !substring_at(haystack@, needle@, start as int),
                !matched ==> nlen >= 1,
            decreases nlen - k,
        {
            if haystack[start + k] != needle[k] {
                proof {
                    assert(haystack@.subrange(start as int, start + nlen)[k as int]
                        == haystack@[start + k]);
                }
                matched = false;
            }
            k = k + 1;
        }
        if matched {
            proof {
                assert(haystack@.subrange(start as int, start + nlen) =~= needle@);
                assert(substring_at(haystack@, needle@, start as int));
            }
            return Option::Some(start);
        }
        start = start + 1;
    }
    Option::None
}

/// Whether an exec result agrees with the mathematical match result.
pub open spec fn match_agrees(
    r: Option<(Vec<usize>, i32)>,
    m: Option<(Seq<int>, int)>,
) -> bool {
    match (r, m) {
        (Option::Some(p), Option::Some(q)) => p.0@.map_values(|u: usize| u as int) == q.0 && p.1
            == q.1,
        (Option::None, Option::None) => true,
        _ => false,
    }
}

/// Match `needle` against `haystack`, both already lowered to flat
/// character vectors: the exact mathematical result `fuzzy_spec`
/// describes — matched positions and score, or nothing.
pub fn fuzzy_match_chars(haystack: &Vec<char>, needle: &Vec<char>) -> (r: Option<(Vec<usize>, i32)>)
    requires
        haystack@.len() < 10000000,
    ensures
        match_agrees(r, fuzzy_spec(haystack@, needle@)),
{
    let nlen = needle.len();
    let hlen = haystack.len();
    if nlen == 0 {
        let empty: Vec<usize> = Vec::new();
        proof {
            assert(empty@.map_values(|u: usize| u as int) =~= Seq::<int>::empty());
        }
        return Option::Some((empty, 0));
    }

    // An exact substring match wins outright.
    match find_substring_pos(haystack, needle) {
        Option::Some(start) => {
            proof {
                lemma_find_sub_valid(haystack@, needle@, 0, start as int);
            }
            let mut positions: Vec<usize> = Vec::new();
            let mut k: usize = 0;
            while k < nlen
                invariant
                    k <= nlen,
                    start + nlen <= hlen,
                    hlen == haystack@.len(),
                    hlen < 10000000,
                    positions@.len() == k,
                    forall|m: int| 0 <= m < k ==> positions@[m] == start + m,
                decreases nlen - k,
            {
                positions.push(start + k);
                k = k + 1;
            }
            let mut score: i32 = 10000;
            if start == 0 {
                score = score + 5000;
            }
            let boundary = if start == 0 {
                true
            } else {
                let p = haystack[start - 1];
                p == '-' || p == '_' || p == '/' || p == '.' || p == ' '
            };
            if boundary {
                score = score + 3000;
            }
            proof {
                assert(positions@.map_values(|u: usize| u as int) =~= Seq::new(
                    needle@.len(),
                    |j: int| start + j,
                ));
                assert(score as int == substring_score(haystack@, start as int));
            }
            Option::Some((positions, score))
        },
        Option::None => {
            // Greedy subsequence: each needle character takes the
            // first occurrence after the previous match.
            let ghost hs = haystack@;
            let ghost ns = needle@;
            let mut positions: Vec<usize> = Vec::new();
            let mut hay_idx: usize = 0;
            let mut k: usize = 0;
            proof {
                assert(ns.skip(0) =~= ns);
                assert(positions@.map_values(|u: usize| u as int) =~= Seq::<int>::empty());
                if greedy_from(hs, ns, 0) is Some {
                    assert(Seq::<int>::empty() + opt_seq_val(greedy_from(hs, ns, 0))
                        =~= opt_seq_val(greedy_from(hs, ns, 0)));
                }
            }
            while k < nlen
                invariant
                    k <= nlen,
                    nlen >= 1,
                    nlen == ns.len(),
                    hlen == hs.len(),
                    hs == haystack@,
                    ns == needle@,
                    hlen < 10000000,
                    find_sub_from(hs, ns, 0) is None,
                    hay_idx <= hlen,
                    positions@.len() == k,
                    forall|m: int| 0 <= m < k ==> (#[trigger] positions@[m]) < hs.len(),
                    forall|m: int|
                        0 <= m < k ==> m <= (#[trigger] positions@[m]) < hay_idx,
                    forall|m: int|
                        0 < m < k ==> (positions@[m - 1] as int) < (#[trigger] positions@[m]
                            as int),
                    (greedy_from(hs, ns, 0) is Some) == (greedy_from(hs, ns.skip(k as int),
                        hay_idx as int) is Some),
                    greedy_from(hs, ns, 0) is Some ==> opt_seq_val(greedy_from(hs, ns, 0))
                        == positions@.map_values(|u: usize| u as int) + opt_seq_val(
                        greedy_from(hs, ns.skip(k as int), hay_idx as int),
                    ),
                decreases nlen - k,
            {
                let c = needle[k];
                let ghost h0 = hay_idx as int;
                let mut found = false;
                while hay_idx < hlen
                    invariant_except_break
                        !found,
                        forall|m: int| h0 <= m < hay_idx ==> hs[m] != c,
                    invariant
                        h0 <= hay_idx <= hlen,
                        hlen == hs.len(),
                        hs == haystack@,
                    ensures
                        found ==> hay_idx < hlen && hs[hay_idx as int] == c && (forall|m: int|
                            h0 <= m < hay_idx ==> hs[m] != c),
                        !found ==> hay_idx == hlen && (forall|m: int|
                            h0 <= m < hay_idx ==> hs[m] != c),
                    decreases hlen - hay_idx,
                {
                    if haystack[hay_idx] == c {
                        found = true;
                        break;
                    }
                    hay_idx = hay_idx + 1;
                }
                proof {
                    assert(ns.skip(k as int)[0] == ns[k as int]);
                    assert(ns.skip(k as int).drop_first() =~= ns.skip(k + 1));
                }
                if !found {
                    proof {
                        lemma_first_occ_none(hs, c, h0);
                        assert(greedy_from(hs, ns.skip(k as int), h0) is None);
                        assert(greedy_from(hs, ns, 0) is None);
                        assert(find_sub_from(hs, ns, 0) is None);
                        assert(fuzzy_spec(hs, ns) is None);
                    }
                    return Option::None;
                }
                proof {
                    lemma_first_occ_found(hs, c, h0, hay_idx as int);
                    assert(first_occ(hs, ns.skip(k as int)[0], h0) == Option::Some(
                        hay_idx as int,
                    ));
                    let tail = greedy_from(hs, ns.skip(k + 1), hay_idx + 1);
                    if tail is Some {
                        assert(greedy_from(hs, ns.skip(k as int), h0) == Option::Some(
                            seq![hay_idx as int] + opt_seq_val(tail),
                        ));
                        assert(positions@.push(hay_idx).map_values(|u: usize| u as int)
                            =~= positions@.map_values(|u: usize| u as int).push(hay_idx as int));
                        assert(positions@.map_values(|u: usize| u as int) + (seq![hay_idx as int]
                            + opt_seq_val(tail)) =~= positions@.map_values(|u: usize| u as int)
                            .push(hay_idx as int) + opt_seq_val(tail));
                    } else {
                        assert(greedy_from(hs, ns.skip(k as int), h0) is None);
                    }
                }
                proof {
                    if k > 0 {
                        assert((k - 1) as int <= positions@[k as int - 1]);
                        assert((positions@[k as int - 1] as int) < h0);
                    }
                    assert(k as int <= h0);
                    assert(h0 <= hay_idx as int);
                }
                positions.push(hay_idx);
                hay_idx = hay_idx + 1;
                k = k + 1;
            }
            proof {
                assert(ns.skip(nlen as int) =~= Seq::<char>::empty());
                assert(greedy_from(hs, ns.skip(nlen as int), hay_idx as int) == Option::Some(
                    Seq::<int>::empty(),
                ));
                assert(greedy_from(hs, ns, 0) is Some);
                assert(positions@.map_values(|u: usize| u as int) + Seq::<int>::empty()
                    =~= positions@.map_values(|u: usize| u as int));
            }

            // Score: consecutive and word-boundary bonuses, minus the
            // spread between the first and last matched positions.
            let ghost gpos = positions@.map_values(|u: usize| u as int);
            let mut score: i32 = 0;
            let mut i: usize = 0;
            while i < nlen
                invariant
                    i <= nlen,
                    nlen >= 1,
                    nlen == gpos.len(),
                    hlen == hs.len(),
                    hs == haystack@,
                    hlen < 10000000,
                    positions@.len() == nlen,
                    gpos == positions@.map_values(|u: usize| u as int),
                    forall|m: int| 0 <= m < nlen ==> m <= (#[trigger] positions@[m]) < hs.len(),
                    score as int + subseq_bonus(hs, gpos, i as int) == subseq_bonus(hs, gpos, 0),
                    0 <= score as int <= 70 * i,
                decreases nlen - i,
            {
                proof {
                    lemma_subseq_bonus_bounds(hs, gpos, i as int);
                    lemma_subseq_bonus_bounds(hs, gpos, i + 1);
                    assert(nlen - 1 <= positions@[nlen - 1] < hs.len());
                    assert(70 * i < 70 * 10000000) by (nonlinear_arith)
                        requires
                            0 <= i < 10000000,
                    ;
                }
                if i > 0 && positions[i] == positions[i - 1] + 1 {
                    score = score + 50;
                }
                let p = positions[i];
                let boundary = if p == 0 {
                    true
                } else {
                    let ch = haystack[p - 1];
                    ch == '-' || ch == '_' || ch == '/' || ch == '.' || ch == ' '
                };
                if boundary {
                    score = score + 20;
                }
                i = i + 1;
            }
            proof {
                lemma_subseq_bonus_bounds(hs, gpos, 0);
                assert(gpos.last() == positions@[nlen - 1] as int);
                assert(gpos.first() == positions@[0] as int);
            }
            let first = positions[0];
            let last = positions[nlen - 1];
            let spread: usize = if last >= first {
                last - first
            } else {
                0
            };
            score = score - (spread as i32);
            proof {
                assert(positions@[0] <= positions@[nlen - 1]) by {
                    if nlen > 1 {
                        lemma_increasing(positions@, 0, nlen - 1);
                    }
                }
                assert(score as int == subseq_score(hs, gpos));
            }
            Option::Some((positions, score))
        },
    }
}

/// In a vector whose entries each exceed their predecessor, an earlier
/// entry is at most a later one.
proof fn lemma_increasing(pos: Seq<usize>, a: int, b: int)
    requires
        0 <= a <= b < pos.len(),
        forall|m: int| 0 < m < pos.len() ==> (pos[m - 1] as int) < (#[trigger] pos[m] as int),
    ensures
        pos[a] <= pos[b],
    decreases b - a,
{
    if a < b {
        lemma_increasing(pos, a + 1, b);
    }
}

/// The sequence a `Some` holds, or the empty sequence.
pub open spec fn opt_seq_val(o: Option<Seq<int>>) -> Seq<int> {
    match o {
        Option::Some(s) => s,
        Option::None => Seq::<int>::empty(),
    }
}

/// A position `find_sub_from` returns really holds the needle.
proof fn lemma_find_sub_valid(hay: Seq<char>, needle: Seq<char>, start: int, i: int)
    requires
        start >= 0,
        find_sub_from(hay, needle, start) == Option::Some(i),
    ensures
        substring_at(hay, needle, i),
    decreases hay.len() + 1 - start,
{
    if !(start < 0 || start + needle.len() > hay.len()) && !substring_at(hay, needle, start) {
        lemma_find_sub_valid(hay, needle, start + 1, i);
    }
}

/// Match a needle against a haystack, case-insensitively.  Both are
/// lowered first; an exact substring wins with a high score, else a
/// greedy character subsequence is accepted.  A haystack whose lowered
/// form is absurdly long is rejected outright, so the 32-bit score
/// cannot overflow.
pub fn fuzzy_match(haystack: &str, needle: &str) -> (r: Option<(Vec<usize>, i32)>)
    ensures
        lower_seq(haystack@).len() < 10000000 ==> match_agrees(
            r,
            fuzzy_spec(lower_seq(haystack@), lower_seq(needle@)),
        ),
        lower_seq(haystack@).len() >= 10000000 ==> r is None,
{
    let hl = lower_chars(haystack);
    if hl.len() >= 10000000 {
        return Option::None;
    }
    let nl = lower_chars(needle);
    fuzzy_match_chars(&hl, &nl)
}

} // verus!
