//! Which particles act on which in one evaluation of the forces.
//!
//! Every particle feels every other one, and the force of `j` on `i` is
//! evaluated on its own, apart from that of `i` on `j`.

use vstd::prelude::*;

verus! {

/// The particles that act on particle `i` of a set of `n`: all the others,
/// in increasing order.
pub open spec fn partners_of(n: int, i: int) -> Seq<int> {
    Seq::new(
        (n - 1) as nat,
        |k: int|
            if k < i {
                k
            } else {
                k + 1
            },
    )
}

/// The indices of the particles that act on particle `i` of a set of `n`.
pub fn partners(n: usize, i: usize) -> (r: Vec<usize>)
    requires
        i < n,
    ensures
        r@.len() == partners_of(n as int, i as int).len(),
        forall|k: int| 0 <= k < r@.len() ==> #[trigger] r@[k] as int == partners_of(n as int, i as int)[k],
{
    let mut out: Vec<usize> = Vec::new();
    let mut j: usize = 0;
    while j < n
        invariant
            i < n,
            j <= n,
            out@.len() == if j <= i { j as int } else { j - 1 },
            forall|k: int|
                0 <= k < out@.len() ==> #[trigger] out@[k] as int == if k < i {
                    k
                } else {
                    k + 1
                },
        decreases n - j,
    {
        if j != i {
            out.push(j);
        }
        j = j + 1;
    }
    out
}

/// Particle `j` acts on particle `i` exactly when both belong to the set and
/// they are two different particles.
pub proof fn lemma_partner_iff(n: int, i: int, j: int)
    requires
        0 <= i < n,
    ensures
        partners_of(n, i).contains(j) <==> (0 <= j < n && j != i),
{
    let p = partners_of(n, i);
    if 0 <= j < n && j != i {
        let k = if j < i {
            j
        } else {
            j - 1
        };
        assert(p[k] == j);
    }
}

/// No particle acts on itself.
pub proof fn lemma_no_self_action(n: int, i: int)
    requires
        0 <= i < n,
    ensures
        !partners_of(n, i).contains(i),
{
    lemma_partner_iff(n, i, i);
}

/// Action goes both ways: when `j` acts on `i`, `i` acts on `j`, and each of
/// the two forces is evaluated in its own pass over the set.
pub proof fn lemma_mutual_action(n: int, i: int, j: int)
    requires
        0 <= i < n,
        0 <= j < n,
    ensures
        partners_of(n, i).contains(j) <==> partners_of(n, j).contains(i),
{
    lemma_partner_iff(n, i, j);
    lemma_partner_iff(n, j, i);
}

/// A particle alone in its set is acted on by nothing, so the net force
/// on it stays at zero.
pub proof fn lemma_lone_particle()
    ensures
        partners_of(1, 0) == Seq::<int>::empty(),
{
    assert(partners_of(1, 0) =~= Seq::<int>::empty());
}

} // verus!
