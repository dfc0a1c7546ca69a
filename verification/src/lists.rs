//! Lists of texts in which nothing occurs twice, positions, and ranking by
//! score.
use vstd::prelude::*;

use crate::text;

verus! {

/// The characters of each text.
pub open spec fn texts(v: Seq<String>) -> Seq<Seq<char>> {
    Seq::new(v.len(), |i: int| v[i]@)
}

/// Positions as integers.
pub open spec fn as_ints(v: Seq<usize>) -> Seq<int> {
    Seq::new(v.len(), |i: int| v[i] as int)
}

/// The list with `x` at its end, unless it holds `x` already.
pub open spec fn with_distinct(s: Seq<Seq<char>>, x: Seq<char>) -> Seq<Seq<char>> {
    if s.contains(x) {
        s
    } else {
        s.push(x)
    }
}

/// Whether a list holds a text.
pub fn holds(v: &Vec<String>, s: &str) -> (r: bool)
    ensures
        r == texts(v@).contains(s@),
{
    let mut i: usize = 0;
    while i < v.len()
        invariant
            i <= v@.len(),
            forall|j: int| 0 <= j < i ==> texts(v@)[j] != s@,
        decreases v@.len() - i,
    {
        if text::same(v[i].as_str(), s) {
            assert(texts(v@)[i as int] == s@);
            return true;
        }
        i = i + 1;
    }
    false
}

/// Adds a text to a list that does not hold it yet.
pub fn add_distinct(v: &mut Vec<String>, s: &str)
    ensures
        texts(final(v)@) == with_distinct(texts(old(v)@), s@),
{
    if !holds(v, s) {
        let ghost before = texts(v@);
        v.push(s.to_owned());
        assert(texts(v@) =~= before.push(s@));
    }
}

// -------------------------------------------------------------------- ranking

/// Something with a score.
pub struct Scored {
    pub score: u64,
    pub id: String,
}

/// Scores and identifiers.
pub open spec fn scores(v: Seq<Scored>) -> Seq<(u64, Seq<char>)> {
    Seq::new(v.len(), |i: int| (v[i].score, v[i].id@))
}

/// `s`, which is ranked, with `x` behind everything that scores no less.
pub open spec fn insert_ranked(s: Seq<(u64, Seq<char>)>, x: (u64, Seq<char>)) -> Seq<
    (u64, Seq<char>),
>
    decreases s.len(),
{
    if s.len() == 0 || s.last().0 >= x.0 {
        s.push(x)
    } else {
        insert_ranked(s.drop_last(), x).push(s.last())
    }
}

/// `s` by falling score, equal scores in their order in `s`.
pub open spec fn ranked(s: Seq<(u64, Seq<char>)>) -> Seq<(u64, Seq<char>)>
    decreases s.len(),
{
    if s.len() == 0 {
        Seq::empty()
    } else {
        insert_ranked(ranked(s.drop_last()), s.last())
    }
}

/// The scores fall.
pub open spec fn falls(s: Seq<(u64, Seq<char>)>) -> bool {
    forall|i: int, j: int| 0 <= i < j < s.len() ==> (#[trigger] s[i]).0 >= (#[trigger] s[j]).0
}

proof fn lemma_insert_ranked(s: Seq<(u64, Seq<char>)>, x: (u64, Seq<char>))
    requires
        falls(s),
    ensures
        falls(insert_ranked(s, x)),
        insert_ranked(s, x).len() == s.len() + 1,
        insert_ranked(s, x).to_multiset() == s.to_multiset().insert(x),
    decreases s.len(),
{
    broadcast use vstd::seq_lib::group_to_multiset_ensures;

    if s.len() == 0 || s.last().0 >= x.0 {
    } else {
        let init = s.drop_last();
        lemma_insert_ranked(init, x);
        let out = insert_ranked(init, x);
        assert(s =~= init.push(s.last()));
        assert(s.to_multiset() =~= init.to_multiset().insert(s.last()));
        assert(out.push(s.last()).to_multiset() =~= s.to_multiset().insert(x));
        assert forall|i: int, j: int| 0 <= i < j < out.len() + 1 implies (#[trigger] out.push(
            s.last(),
        )[i]).0 >= (#[trigger] out.push(s.last())[j]).0 by {
            if j == out.len() {
                lemma_member_of_insert(init, x, i);
            }
        }
    }
}

proof fn lemma_member_of_insert(s: Seq<(u64, Seq<char>)>, x: (u64, Seq<char>), i: int)
    requires
        0 <= i < insert_ranked(s, x).len(),
    ensures
        insert_ranked(s, x)[i] == x || s.contains(insert_ranked(s, x)[i]),
    decreases s.len(),
{
    if s.len() == 0 || s.last().0 >= x.0 {
        if i < s.len() {
            assert(s[i] == insert_ranked(s, x)[i]);
        }
    } else {
        let out = insert_ranked(s.drop_last(), x);
        if i < out.len() {
            lemma_member_of_insert(s.drop_last(), x, i);
            if s.drop_last().contains(out[i]) {
                let j = choose|j: int| 0 <= j < s.len() - 1 && s.drop_last()[j] == out[i];
                assert(s[j] == out[i]);
            }
        } else {
            assert(s[s.len() - 1] == s.last());
        }
    }
}

/// Ranking orders by falling score, and neither adds nor loses anything.
pub proof fn law_ranked(s: Seq<(u64, Seq<char>)>)
    ensures
        falls(ranked(s)),
        ranked(s).to_multiset() == s.to_multiset(),
        ranked(s).len() == s.len(),
    decreases s.len(),
{
    broadcast use vstd::seq_lib::group_to_multiset_ensures;

    if s.len() > 0 {
        law_ranked(s.drop_last());
        lemma_insert_ranked(ranked(s.drop_last()), s.last());
        assert(s =~= s.drop_last().push(s.last()));
        assert(s.to_multiset() =~= s.drop_last().to_multiset().insert(s.last()));
    } else {
        assert(ranked(s) =~= s);
    }
}

/// Inserting stands behind everything that scores no less, where what follows
/// scores less.
proof fn lemma_insert_ranked_at(s: Seq<(u64, Seq<char>)>, x: (u64, Seq<char>), p: int)
    requires
        0 <= p <= s.len(),
        p > 0 ==> s[p - 1].0 >= x.0,
        forall|j: int| p <= j < s.len() ==> (#[trigger] s[j]).0 < x.0,
    ensures
        insert_ranked(s, x) == s.insert(p, x),
    decreases s.len(),
{
    if s.len() == p {
        assert(s.insert(p, x) =~= s.push(x));
    } else {
        assert(s[s.len() - 1].0 < x.0);
        let init = s.drop_last();
        lemma_insert_ranked_at(init, x, p);
        assert(s.insert(p, x) =~= init.insert(p, x).push(s.last()));
    }
}

/// A list by falling score, equal scores in their order in the list.
pub fn rank(v: &Vec<Scored>) -> (r: Vec<Scored>)
    ensures
        scores(r@) == ranked(scores(v@)),
{
    let mut out: Vec<Scored> = Vec::new();
    let mut i: usize = 0;
    assert(scores(out@) =~= ranked(scores(v@).take(0)));
    while i < v.len()
        invariant
            i <= v@.len(),
            scores(out@) == ranked(scores(v@).take(i as int)),
            out@.len() == i,
        decreases v@.len() - i,
    {
        let score: u64 = v[i].score;
        let mut p: usize = out.len();
        while p > 0 && out[p - 1].score < score
            invariant
                p <= out@.len(),
                forall|j: int| p <= j < out@.len() ==> (#[trigger] scores(out@)[j]).0 < score,
            decreases p,
        {
            assert(scores(out@)[p - 1].0 < score);
            p = p - 1;
        }
        let ghost before = scores(out@);
        let ghost x = (score, v@[i as int].id@);
        out.insert(p, Scored { score, id: v[i].id.clone() });
        proof {
            assert(scores(out@) =~= before.insert(p as int, x));
            lemma_insert_ranked_at(before, x, p as int);
            assert(scores(v@).take(i + 1).drop_last() =~= scores(v@).take(i as int));
            assert(scores(v@).take(i + 1).last() == x);
        }
        i = i + 1;
    }
    assert(scores(v@).take(i as int) =~= scores(v@));
    out
}

/// The first `n` of a list, all of it where it has no more.
pub open spec fn first_n<A>(s: Seq<A>, n: int) -> Seq<A> {
    if s.len() <= n {
        s
    } else {
        s.take(n)
    }
}

/// The `n` that score highest, by falling score, equal scores in their order
/// in the list.
pub fn top(v: &Vec<Scored>, n: usize) -> (r: Vec<Scored>)
    ensures
        scores(r@) == first_n(ranked(scores(v@)), n as int),
{
    let mut all = rank(v);
    let ghost full = scores(all@);
    while all.len() > n
        invariant
            n <= full.len() ==> all@.len() >= n,
            full.len() <= n ==> all@.len() == full.len(),
            all@.len() <= full.len(),
            scores(all@) == full.take(all@.len() as int),
        decreases all@.len(),
    {
        let ghost before = all@;
        let _ = all.pop();
        assert(scores(all@) =~= full.take(all@.len() as int)) by {
            assert forall|i: int| 0 <= i < all@.len() implies scores(all@)[i] == full[i] by {
                assert(scores(before)[i] == full.take(before.len() as int)[i]);
            }
        }
    }
    proof {
        if full.len() <= n {
            assert(full.take(full.len() as int) =~= full);
        }
    }
    all
}

/// Ranking puts one more entry behind all that score no less, and before all
/// that score less: of equal ones the earlier stays first.
pub proof fn law_equal_scores_keep_their_order(s: Seq<(u64, Seq<char>)>, x: (u64, Seq<char>)) -> (p:
    int)
    ensures
        0 <= p <= ranked(s).len(),
        ranked(s.push(x)) == ranked(s).insert(p, x),
        forall|j: int| 0 <= j < p ==> (#[trigger] ranked(s)[j]).0 >= x.0,
        forall|j: int| p <= j < ranked(s).len() ==> (#[trigger] ranked(s)[j]).0 < x.0,
{
    let r = ranked(s);
    law_ranked(s);
    assert(s.push(x).drop_last() =~= s);
    let p = lemma_place_for(r, x.0);
    lemma_insert_ranked_at(r, x, p);
    p
}

/// In a ranked list there is a place before which all score no less, and behind
/// which all score less.
proof fn lemma_place_for(s: Seq<(u64, Seq<char>)>, score: u64) -> (p: int)
    requires
        falls(s),
    ensures
        0 <= p <= s.len(),
        forall|j: int| 0 <= j < p ==> (#[trigger] s[j]).0 >= score,
        forall|j: int| p <= j < s.len() ==> (#[trigger] s[j]).0 < score,
    decreases s.len(),
{
    if s.len() == 0 || s.last().0 >= score {
        s.len() as int
    } else {
        let init = s.drop_last();
        let p = lemma_place_for(init, score);
        assert forall|j: int| p <= j < s.len() implies (#[trigger] s[j]).0 < score by {
            if j < init.len() {
                assert(init[j] == s[j]);
            }
        }
        assert forall|j: int| 0 <= j < p implies (#[trigger] s[j]).0 >= score by {
            assert(init[j] == s[j]);
        }
        p
    }
}

/// The first `n` of a list are as many as it has, `n` at most, in its order;
/// adding a text that a list holds changes nothing, and any other goes to its
/// end.
pub proof fn law_lists(s: Seq<Seq<char>>, x: Seq<char>, n: int)
    requires
        n >= 0,
    ensures
        first_n(s, n).len() == if s.len() < n {
            s.len() as int
        } else {
            n
        },
        forall|i: int| 0 <= i < first_n(s, n).len() ==> #[trigger] first_n(s, n)[i] == s[i],
        s.contains(x) ==> with_distinct(s, x) == s,
        !s.contains(x) ==> with_distinct(s, x) == s.push(x),
{
}

} // verus!
