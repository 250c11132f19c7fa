//! The order of names: lexicographic by character code, as `String` orders itself.
use vstd::prelude::*;

verus! {

/// Length of the longest common prefix of `a` and `b`.
pub open spec fn common_prefix_len(a: Seq<char>, b: Seq<char>) -> nat
    decreases a.len(),
{
    if a.len() == 0 || b.len() == 0 || a[0] != b[0] {
        0
    } else {
        1 + common_prefix_len(a.drop_first(), b.drop_first())
    }
}

/// `a` comes strictly before `b`: either `a` is a proper prefix of `b`, or at the
/// first position where they differ `a` has the smaller character.
pub open spec fn name_lt(a: Seq<char>, b: Seq<char>) -> bool {
    let p = common_prefix_len(a, b);
    ||| p == a.len() && p < b.len()
    ||| p < a.len() && p < b.len() && (a[p as int] as int) < (b[p as int] as int)
}

/// The defining facts of the common prefix length.
pub proof fn lemma_common_prefix(a: Seq<char>, b: Seq<char>)
    ensures
        common_prefix_len(a, b) <= a.len(),
        common_prefix_len(a, b) <= b.len(),
        forall|j: int| 0 <= j < common_prefix_len(a, b) ==> a[j] == b[j],
        common_prefix_len(a, b) < a.len() && common_prefix_len(a, b) < b.len()
            ==> a[common_prefix_len(a, b) as int] != b[common_prefix_len(a, b) as int],
    decreases a.len(),
{
    if a.len() == 0 || b.len() == 0 || a[0] != b[0] {
    } else {
        let a1 = a.drop_first();
        let b1 = b.drop_first();
        lemma_common_prefix(a1, b1);
        assert forall|j: int| 0 <= j < common_prefix_len(a, b) implies a[j] == b[j] by {
            if j > 0 {
                assert(a1[j - 1] == b1[j - 1]);
            }
        }
    }
}

/// Any length with the defining facts is the common prefix length.
pub proof fn lemma_common_prefix_unique(a: Seq<char>, b: Seq<char>, n: nat)
    requires
        n <= a.len(),
        n <= b.len(),
        forall|j: int| 0 <= j < n ==> a[j] == b[j],
        n < a.len() && n < b.len() ==> a[n as int] != b[n as int],
    ensures
        common_prefix_len(a, b) == n,
{
    lemma_common_prefix(a, b);
    let p = common_prefix_len(a, b);
    if p < n {
        assert(a[p as int] == b[p as int]);
    } else if n < p {
        assert(a[n as int] == b[n as int]);
    }
}

/// The common prefix length does not depend on the order of its arguments.
pub proof fn lemma_common_prefix_symmetric(a: Seq<char>, b: Seq<char>)
    ensures
        common_prefix_len(a, b) == common_prefix_len(b, a),
{
    lemma_common_prefix(a, b);
    lemma_common_prefix_unique(b, a, common_prefix_len(a, b));
}

/// No name comes before itself.
pub proof fn lemma_name_lt_irreflexive(a: Seq<char>)
    ensures
        !name_lt(a, a),
{
    lemma_common_prefix_unique(a, a, a.len());
}

/// Two names in order are distinct, and not in the other order.
pub proof fn lemma_name_lt_asymmetric(a: Seq<char>, b: Seq<char>)
    requires
        name_lt(a, b),
    ensures
        !name_lt(b, a),
        a != b,
{
    lemma_common_prefix_symmetric(a, b);
    lemma_name_lt_irreflexive(a);
}

/// Distinct names are ordered one way or the other.
pub proof fn lemma_name_lt_total(a: Seq<char>, b: Seq<char>)
    requires
        a != b,
    ensures
        name_lt(a, b) || name_lt(b, a),
{
    lemma_common_prefix(a, b);
    lemma_common_prefix_symmetric(a, b);
    let p = common_prefix_len(a, b);
    if p == a.len() && p == b.len() {
        assert(a =~= b);
    }
    if p < a.len() && p < b.len() {
        let x = a[p as int];
        let y = b[p as int];
        assert((x as int) != (y as int)) by {
            if (x as int) == (y as int) {
                assert(x == y);
            }
        }
    }
}

/// The order of names is transitive.
pub proof fn lemma_name_lt_transitive(a: Seq<char>, b: Seq<char>, c: Seq<char>)
    requires
        name_lt(a, b),
        name_lt(b, c),
    ensures
        name_lt(a, c),
{
    lemma_common_prefix(a, b);
    lemma_common_prefix(b, c);
    lemma_common_prefix(a, c);
    let p = common_prefix_len(a, b);
    let q = common_prefix_len(b, c);
    if p < q {
        lemma_common_prefix_unique(a, c, p);
    } else if q < p {
        lemma_common_prefix_unique(a, c, q);
    } else {
        if p < a.len() && p < c.len() {
            assert((a[p as int] as int) < (c[p as int] as int));
        }
        lemma_common_prefix_unique(a, c, p);
    }
}

/// Outcome of comparing two names.
#[derive(PartialEq, Eq, Structural, Clone, Copy, Debug)]
pub enum NameOrder {
    Before,
    Same,
    After,
}

/// Compares two names in the order of `name_lt`.
pub fn compare_names(a: &str, b: &str) -> (res: NameOrder)
    ensures
        res == NameOrder::Before <==> name_lt(a@, b@),
        res == NameOrder::Same <==> a@ == b@,
        res == NameOrder::After <==> name_lt(b@, a@),
{
    let la = a.unicode_len();
    let lb = b.unicode_len();
    let mut i: usize = 0;
    while i < la && i < lb
        invariant
            la == a@.len(),
            lb == b@.len(),
            i <= la,
            i <= lb,
            forall|j: int| 0 <= j < i ==> a@[j] == b@[j],
        decreases la - i,
    {
        let x = a.get_char(i);
        let y = b.get_char(i);
        if x != y {
            proof {
                lemma_common_prefix_unique(a@, b@, i as nat);
                lemma_common_prefix_symmetric(a@, b@);
                assert((x as int) != (y as int)) by {
                    if (x as int) == (y as int) {
                        assert(x == y);
                    }
                }
            }
            if (x as u32) < (y as u32) {
                proof { lemma_name_lt_asymmetric(a@, b@); }
                return NameOrder::Before;
            } else {
                proof { lemma_name_lt_asymmetric(b@, a@); }
                return NameOrder::After;
            }
        }
        i = i + 1;
    }
    proof {
        lemma_common_prefix_unique(a@, b@, i as nat);
        lemma_common_prefix_symmetric(a@, b@);
        lemma_name_lt_irreflexive(a@);
    }
    if la == lb {
        proof { assert(a@ =~= b@); }
        NameOrder::Same
    } else if la < lb {
        NameOrder::Before
    } else {
        NameOrder::After
    }
}

} // verus!
