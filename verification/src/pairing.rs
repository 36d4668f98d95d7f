use vstd::prelude::*;

verus! {

/// For each entry, its immediate neighbours in the given order: the
/// first entry sees only its successor, the last only its predecessor,
/// and a middle entry sees its predecessor then its successor.  This
/// neighbour pairing — not any wider window — is the comparison scope
/// of the partial update rules.  A single entry has no neighbours and
/// gets an empty row.
pub fn ladder_pairs<T: Clone>(ranks: &Vec<T>) -> (r: Vec<Vec<T>>)
    requires
        ranks@.len() >= 1,
    ensures
        r@.len() == ranks@.len(),
        ranks@.len() == 1 ==> (r@[0])@.len() == 0,
        ranks@.len() >= 2 ==> {
            &&& (r@[0])@.len() == 1 && cloned(ranks@[1], (r@[0])@[0])
            &&& (r@[ranks@.len() - 1])@.len() == 1 && cloned(
                ranks@[ranks@.len() - 2],
                (r@[ranks@.len() - 1])@[0],
            )
            &&& forall|i: int|
                1 <= i < ranks@.len() - 1 ==> (#[trigger] r@[i])@.len() == 2 && cloned(
                    ranks@[i - 1],
                    (r@[i])@[0],
                ) && cloned(ranks@[i + 1], (r@[i])@[1])
        },
{
    let n = ranks.len();
    let mut r: Vec<Vec<T>> = Vec::new();
    let mut i: usize = 0;
    while i < n
        invariant
            n == ranks@.len(),
            n >= 1,
            i <= n,
            r@.len() == i,
            forall|k: int|
                0 <= k < i ==> {
                    let row = (#[trigger] r@[k])@;
                    &&& (n == 1 ==> row.len() == 0)
                    &&& (n >= 2 && k == 0 ==> row.len() == 1 && cloned(ranks@[1], row[0]))
                    &&& (n >= 2 && k == n - 1 ==> row.len() == 1 && cloned(ranks@[n - 2], row[0]))
                    &&& (1 <= k < n - 1 ==> row.len() == 2 && cloned(ranks@[k - 1], row[0])
                        && cloned(ranks@[k + 1], row[1]))
                },
        decreases n - i,
    {
        let mut row: Vec<T> = Vec::new();
        if i > 0 {
            row.push(ranks[i - 1].clone());
        }
        if i + 1 < n {
            row.push(ranks[i + 1].clone());
        }
        r.push(row);
        i = i + 1;
    }
    r
}

/// Where the pair led by `entries[a]` and followed by `entries[b]`
/// sits in the enumeration of [`ordered_pairs`]: under leader `a`,
/// the followers keep their input order with `a` itself skipped.
pub open spec fn ordered_pair_index(len: int, a: int, b: int) -> int {
    a * (len - 1) + if b < a {
        b
    } else {
        b - 1
    }
}

/// Holds when the pair of `entries[a]` and `entries[b]` stands, as
/// clones, at its position in `pairs`.
pub open spec fn has_ordered_pair<T: Clone>(entries: Seq<T>, pairs: Seq<(T, T)>, a: int, b: int) -> bool {
    let k = ordered_pair_index(entries.len() as int, a, b);
    &&& 0 <= k < pairs.len()
    &&& cloned(entries[a], pairs[k].0)
    &&& cloned(entries[b], pairs[k].1)
}

/// Every ordered pair of distinct entries, leaders in input order and,
/// under each leader, the followers in input order.  This full ordered
/// enumeration is the comparison scope of the draw prediction, which
/// visits both directions of every pair.
pub fn ordered_pairs<T: Clone>(entries: &Vec<T>) -> (r: Vec<(T, T)>)
    ensures
        r@.len() == entries@.len() * (entries@.len() - 1),
        forall|i: int, j: int|
            #![trigger entries@[i], entries@[j]]
            0 <= i < entries@.len() && 0 <= j < entries@.len() && i != j ==> has_ordered_pair(
                entries@,
                r@,
                i,
                j,
            ),
{
    let n = entries.len();
    let mut r: Vec<(T, T)> = Vec::new();
    let mut i: usize = 0;
    while i < n
        invariant
            n == entries@.len(),
            i <= n,
            r@.len() == i * (n as int - 1),
            forall|a: int, b: int|
                #![trigger entries@[a], entries@[b]]
                0 <= a < i && 0 <= b < n && a != b ==> has_ordered_pair(entries@, r@, a, b),
        decreases n - i,
    {
        let ghost base = r@.len();
        proof {
            assert forall|a: int, b: int| 0 <= a < i && 0 <= b < n && a != b implies
                has_ordered_pair(entries@, r@, a, b) by {
                let seed_a = entries@[a];
                let seed_b = entries@[b];
            }
        }
        let mut j: usize = 0;
        while j < n
            invariant
                n == entries@.len(),
                i < n,
                j <= n,
                base == i * (n as int - 1),
                r@.len() == base + if j <= i {
                    j as int
                } else {
                    j - 1
                },
                forall|a: int, b: int|
                    #![trigger entries@[a], entries@[b]]
                    0 <= a < i && 0 <= b < n && a != b ==> has_ordered_pair(entries@, r@, a, b),
                forall|b: int|
                    #![trigger entries@[b]]
                    0 <= b < j && b != i ==> has_ordered_pair(entries@, r@, i as int, b),
            decreases n - j,
        {
            let ghost r_pre = r@;
            if j != i {
                r.push((entries[i].clone(), entries[j].clone()));
            }
            proof {
                assert forall|b: int| 0 <= b < j + 1 && b != i implies has_ordered_pair(
                    entries@,
                    r@,
                    i as int,
                    b,
                ) by {
                    let seed = entries@[b];
                    if b != j {
                        assert(has_ordered_pair(entries@, r_pre, i as int, b));
                        let k = ordered_pair_index(entries@.len() as int, i as int, b);
                        assert(r@[k] == r_pre[k]);
                    }
                }
                assert forall|a: int, b: int| 0 <= a < i && 0 <= b < n && a != b implies
                    has_ordered_pair(entries@, r@, a, b) by {
                    let seed_a = entries@[a];
                    let seed_b = entries@[b];
                    assert(has_ordered_pair(entries@, r_pre, a, b));
                    let k = ordered_pair_index(entries@.len() as int, a, b);
                    assert(r@[k] == r_pre[k]);
                }
            }
            j = j + 1;
        }
        proof {
            assert forall|a: int, b: int| 0 <= a < i + 1 && 0 <= b < n && a != b implies
                has_ordered_pair(entries@, r@, a, b) by {
                let seed_a = entries@[a];
                let seed_b = entries@[b];
            }
            assert((i + 1) * (n as int - 1) == i * (n as int - 1) + (n as int - 1))
                by (nonlinear_arith);
        }
        i = i + 1;
    }
    proof {
        if n == 0 {
            assert(n as int * (n as int - 1) == 0);
        }
        assert forall|a: int, b: int|
            0 <= a < entries@.len() && 0 <= b < entries@.len() && a != b implies has_ordered_pair(
            entries@,
            r@,
            a,
            b,
        ) by {
            let seed_a = entries@[a];
            let seed_b = entries@[b];
        }
    }
    r
}

} // verus!
