use vstd::prelude::*;

verus! {

/// For each entry, that entry paired with all the others in input
/// order.  This all-against-all pairing is the comparison scope of the
/// full update rules and of the win prediction: row `i` keeps the
/// entries before `i` at their positions and shifts the later ones
/// down by one.
pub fn zip_without_self<T: Clone>(vector: &Vec<T>) -> (r: Vec<(T, Vec<T>)>)
    ensures
        r@.len() == vector@.len(),
        forall|i: int| 0 <= i < r@.len() ==> cloned(vector@[i], (#[trigger] r@[i]).0),
        forall|i: int| 0 <= i < r@.len() ==> (#[trigger] r@[i]).1@.len() == vector@.len() - 1,
        forall|i: int, j: int|
            #![trigger r@[i].1@[j]]
            0 <= i < r@.len() && 0 <= j < i ==> cloned(vector@[j], r@[i].1@[j]),
        forall|i: int, j: int|
            #![trigger r@[i].1@[j]]
            0 <= i < r@.len() && i <= j < vector@.len() - 1 ==> cloned(vector@[j + 1], r@[i].1@[j]),
{
    let n = vector.len();
    let mut r: Vec<(T, Vec<T>)> = Vec::new();
    let mut i: usize = 0;
    while i < n
        invariant
            n == vector@.len(),
            i <= n,
            r@.len() == i,
            forall|k: int| 0 <= k < i ==> cloned(vector@[k], (#[trigger] r@[k]).0),
            forall|k: int| 0 <= k < i ==> (#[trigger] r@[k]).1@.len() == n - 1,
            forall|k: int, j: int|
                #![trigger r@[k].1@[j]]
                0 <= k < i && 0 <= j < k ==> cloned(vector@[j], r@[k].1@[j]),
            forall|k: int, j: int|
                #![trigger r@[k].1@[j]]
                0 <= k < i && k <= j < n - 1 ==> cloned(vector@[j + 1], r@[k].1@[j]),
        decreases n - i,
    {
        let mut others: Vec<T> = Vec::new();
        let mut j: usize = 0;
        while j < n
            invariant
                n == vector@.len(),
                i < n,
                j <= n,
                others@.len() == if j <= i {
                    j as int
                } else {
                    j - 1
                },
                forall|b: int| 0 <= b < j && b < i ==> cloned(vector@[b], (#[trigger] others@[b])),
                forall|b: int|
                    #![trigger vector@[b]]
                    i < b < j ==> cloned(vector@[b], others@[b - 1]),
            decreases n - j,
        {
            if j != i {
                others.push(vector[j].clone());
            }
            j = j + 1;
        }
        r.push((vector[i].clone(), others));
        i = i + 1;
    }
    r
}

/// Applies `f` to each member of a team.  The result has one entry per
/// member, in member order: the shape-preserving core of the per-team
/// finishing step that every update rule ends with.
pub fn map_members<T, U, F: Fn(&T) -> U>(members: &Vec<T>, f: F) -> (r: Vec<U>)
    requires
        forall|i: int| 0 <= i < members@.len() ==> call_requires(f, (&members@[i],)),
    ensures
        r@.len() == members@.len(),
        forall|i: int| 0 <= i < members@.len() ==> call_ensures(f, (&members@[i],), #[trigger] r@[i]),
{
    let n = members.len();
    let mut r: Vec<U> = Vec::new();
    let mut i: usize = 0;
    while i < n
        invariant
            n == members@.len(),
            i <= n,
            r@.len() == i,
            forall|k: int| 0 <= k < n ==> call_requires(f, (&members@[k],)),
            forall|k: int| 0 <= k < i ==> call_ensures(f, (&members@[k],), #[trigger] r@[k]),
        decreases n - i,
    {
        let u = f(&members[i]);
        r.push(u);
        i = i + 1;
    }
    r
}

} // verus!
