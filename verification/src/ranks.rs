use vstd::prelude::*;

verus! {

/// The rank list used when the caller supplies none: every team keeps
/// its position in the input, so earlier teams finished better.
pub fn default_ranks(n: usize) -> (r: Vec<usize>)
    ensures
        r@.len() == n,
        forall|i: int| 0 <= i < n ==> r@[i] == i,
{
    let mut r: Vec<usize> = Vec::new();
    let mut i: usize = 0;
    while i < n
        invariant
            i <= n,
            r@.len() == i,
            forall|j: int| 0 <= j < i ==> r@[j] == j,
        decreases n - i,
    {
        r.push(i);
        i = i + 1;
    }
    r
}

/// The observed pairwise outcome for the side ranked `rank_b` against
/// the side ranked `rank_a`.  A lower rank is the better finish, so the
/// `rank_b` side wins exactly when `rank_a` is the larger number.  The
/// numeric shell maps `Loss`, `Draw`, `Win` to the scores 0, 1/2, 1.
#[derive(Debug, Clone, Copy, PartialEq, Eq, Structural)]
pub enum Score {
    Loss,
    Draw,
    Win,
}

/// Compares two finish ranks under the lower-is-better convention.
pub fn score(rank_a: usize, rank_b: usize) -> (s: Score)
    ensures
        s == Score::Loss <==> rank_a < rank_b,
        s == Score::Win <==> rank_a > rank_b,
        s == Score::Draw <==> rank_a == rank_b,
{
    if rank_a < rank_b {
        Score::Loss
    } else if rank_a > rank_b {
        Score::Win
    } else {
        Score::Draw
    }
}

/// How many entries of `ranks` equal `v`.
pub open spec fn count_rank(ranks: Seq<usize>, v: usize) -> int
    decreases ranks.len(),
{
    if ranks.len() == 0 {
        0
    } else {
        count_rank(ranks.drop_last(), v) + if ranks.last() == v {
            1int
        } else {
            0int
        }
    }
}

proof fn lemma_count_rank_take_step(ranks: Seq<usize>, v: usize, j: int)
    requires
        0 <= j < ranks.len(),
    ensures
        count_rank(ranks.take(j + 1), v) == count_rank(ranks.take(j), v) + if ranks[j] == v {
            1int
        } else {
            0int
        },
{
    assert(ranks.take(j + 1).drop_last() =~= ranks.take(j));
    assert(ranks.take(j + 1).last() == ranks[j]);
}

/// For each team, how many teams (itself included) share its rank:
/// the tie multiplicity that the Plackett-Luce rule divides each
/// contribution by.
pub fn tie_counts(ranks: &Vec<usize>) -> (r: Vec<usize>)
    ensures
        r@.len() == ranks@.len(),
        forall|i: int| 0 <= i < r@.len() ==> r@[i] == count_rank(ranks@, ranks@[i]),
{
    let n = ranks.len();
    let mut r: Vec<usize> = Vec::new();
    let mut i: usize = 0;
    while i < n
        invariant
            n == ranks@.len(),
            i <= n,
            r@.len() == i,
            forall|k: int| 0 <= k < i ==> r@[k] == count_rank(ranks@, ranks@[k]),
        decreases n - i,
    {
        let v = ranks[i];
        let mut count: usize = 0;
        let mut j: usize = 0;
        while j < n
            invariant
                n == ranks@.len(),
                j <= n,
                v == ranks@[i as int],
                count == count_rank(ranks@.take(j as int), v),
                count <= j,
            decreases n - j,
        {
            proof {
                lemma_count_rank_take_step(ranks@, v, j as int);
            }
            if ranks[j] == v {
                count = count + 1;
            }
            j = j + 1;
        }
        proof {
            assert(ranks@.take(n as int) =~= ranks@);
        }
        r.push(count);
        i = i + 1;
    }
    r
}

/// The indices `q` with `ranks[q] <= bound` among the first `upto`
/// entries, in ascending order.
pub open spec fn indices_ranked_leq(ranks: Seq<usize>, bound: usize, upto: int) -> Seq<usize>
    decreases upto,
{
    if upto <= 0 {
        Seq::empty()
    } else {
        let prefix = indices_ranked_leq(ranks, bound, upto - 1);
        if ranks[upto - 1] <= bound {
            prefix.push((upto - 1) as usize)
        } else {
            prefix
        }
    }
}

/// For each team `i`, the ascending list of the teams whose rank is at
/// most `ranks[i]` — the teams that finished at least as well as team
/// `i`, itself included.  This is the comparison scope of the
/// Plackett-Luce rule, and its transpose drives that rule's softmax
/// denominators: team `i` contributes to the denominator of exactly
/// the teams in row `i`.
pub fn rank_leq_indices(ranks: &Vec<usize>) -> (r: Vec<Vec<usize>>)
    ensures
        r@.len() == ranks@.len(),
        forall|i: int| 0 <= i < r@.len() ==> (#[trigger] r@[i])@ == indices_ranked_leq(
            ranks@,
            ranks@[i],
            ranks@.len() as int,
        ),
{
    let n = ranks.len();
    let mut r: Vec<Vec<usize>> = Vec::new();
    let mut i: usize = 0;
    while i < n
        invariant
            n == ranks@.len(),
            i <= n,
            r@.len() == i,
            forall|k: int| 0 <= k < i ==> (#[trigger] r@[k])@ == indices_ranked_leq(
                ranks@,
                ranks@[k],
                n as int,
            ),
        decreases n - i,
    {
        let bound = ranks[i];
        let mut row: Vec<usize> = Vec::new();
        let mut j: usize = 0;
        while j < n
            invariant
                n == ranks@.len(),
                j <= n,
                bound == ranks@[i as int],
                row@ == indices_ranked_leq(ranks@, bound, j as int),
            decreases n - j,
        {
            if ranks[j] <= bound {
                row.push(j);
            }
            j = j + 1;
        }
        r.push(row);
        i = i + 1;
    }
    r
}

} // verus!
