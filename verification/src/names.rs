//! The order in which player names are kept.
//!
//! Names are compared character by character, by code point; a name that is a
//! proper prefix of another comes first. Every collection of the game that is
//! keyed by a player name walks its entries in this order.

use vstd::prelude::*;
use vstd::string::StrSliceExecFns;

verus! {

/// `a` and `b` agree on their first `k` characters.
pub open spec fn common_prefix(a: Seq<char>, b: Seq<char>, k: int) -> bool {
    &&& 0 <= k <= a.len()
    &&& k <= b.len()
    &&& forall|i: int| 0 <= i < k ==> a[i] == b[i]
}

/// `a` comes before `b`, and position `k` is where that shows: either `a` ends
/// there and `b` goes on, or `a` has the smaller character there.
pub open spec fn precedes_at(a: Seq<char>, b: Seq<char>, k: int) -> bool {
    &&& common_prefix(a, b, k)
    &&& if k == a.len() {
        k < b.len()
    } else {
        k < b.len() && a[k] < b[k]
    }
}

/// `a` comes strictly before `b`.
pub open spec fn name_lt(a: Seq<char>, b: Seq<char>) -> bool {
    exists|k: int| precedes_at(a, b, k)
}

/// Every name in `names` comes strictly before each name after it.
pub open spec fn strictly_sorted(names: Seq<Seq<char>>) -> bool {
    forall|i: int, j: int| 0 <= i < j < names.len() ==> name_lt(names[i], names[j])
}

/// How one name stands to another.
#[derive(Clone, Copy, PartialEq, Eq, Structural, Debug)]
pub enum NameOrder {
    Before,
    Same,
    After,
}

/// No name comes before itself.
pub proof fn lemma_name_lt_irreflexive(a: Seq<char>)
    ensures
        !name_lt(a, a),
{
}

/// Two names are never each before the other.
pub proof fn lemma_name_lt_asymmetric(a: Seq<char>, b: Seq<char>)
    requires
        name_lt(a, b),
    ensures
        !name_lt(b, a),
        a != b,
{
    if a == b {
        lemma_name_lt_irreflexive(a);
    }
}

/// The order is transitive.
pub proof fn lemma_name_lt_transitive(a: Seq<char>, b: Seq<char>, c: Seq<char>)
    requires
        name_lt(a, b),
        name_lt(b, c),
    ensures
        name_lt(a, c),
{
    let k1 = choose|k: int| precedes_at(a, b, k);
    let k2 = choose|k: int| precedes_at(b, c, k);
    let k = if k1 <= k2 {
        k1
    } else {
        k2
    };
    assert(precedes_at(a, c, k));
}

/// Of two names exactly one holds: the first comes before, they are the same,
/// or the first comes after.
pub proof fn lemma_name_order_exclusive(a: Seq<char>, b: Seq<char>)
    ensures
        name_lt(a, b) ==> a != b && !name_lt(b, a),
        name_lt(b, a) ==> a != b && !name_lt(a, b),
{
    if name_lt(a, b) {
        lemma_name_lt_asymmetric(a, b);
    }
    if name_lt(b, a) {
        lemma_name_lt_asymmetric(b, a);
    }
}

/// In a strictly sorted sequence no name occurs twice.
pub proof fn lemma_sorted_names_distinct(names: Seq<Seq<char>>, i: int, j: int)
    requires
        strictly_sorted(names),
        0 <= i < names.len(),
        0 <= j < names.len(),
        names[i] == names[j],
    ensures
        i == j,
{
    if i < j {
        lemma_name_lt_asymmetric(names[i], names[j]);
    } else if j < i {
        lemma_name_lt_asymmetric(names[j], names[i]);
    }
}

/// A sequence in which every name comes before the next is strictly sorted.
pub proof fn lemma_adjacent_sorted(names: Seq<Seq<char>>)
    requires
        forall|i: int| 0 <= i < names.len() - 1 ==> name_lt(#[trigger] names[i], names[i + 1]),
    ensures
        strictly_sorted(names),
{
    assert forall|i: int, j: int| 0 <= i < j < names.len() implies name_lt(names[i], names[j]) by {
        lemma_adjacent_sorted_pair(names, i, j);
    }
}

proof fn lemma_adjacent_sorted_pair(names: Seq<Seq<char>>, i: int, j: int)
    requires
        forall|i: int| 0 <= i < names.len() - 1 ==> name_lt(#[trigger] names[i], names[i + 1]),
        0 <= i < j < names.len(),
    ensures
        name_lt(names[i], names[j]),
    decreases j - i,
{
    if j > i + 1 {
        lemma_adjacent_sorted_pair(names, i, j - 1);
        lemma_name_lt_transitive(names[i], names[j - 1], names[j]);
    }
}

/// Compares two names character by character.
pub fn compare_names(a: &str, b: &str) -> (r: NameOrder)
    ensures
        r == NameOrder::Before <==> name_lt(a@, b@),
        r == NameOrder::Same <==> a@ == b@,
        r == NameOrder::After <==> name_lt(b@, a@),
{
    let n = a.unicode_len();
    let m = b.unicode_len();
    let mut i: usize = 0;
    proof {
        lemma_name_order_exclusive(a@, b@);
    }
    while i < n && i < m
        invariant
            n == a@.len(),
            m == b@.len(),
            common_prefix(a@, b@, i as int),
        decreases n - i,
    {
        let ca = a.get_char(i);
        let cb = b.get_char(i);
        if ca < cb {
            assert(precedes_at(a@, b@, i as int));
            return NameOrder::Before;
        }
        if cb < ca {
            assert(precedes_at(b@, a@, i as int));
            return NameOrder::After;
        }
        i += 1;
    }
    if n < m {
        assert(precedes_at(a@, b@, i as int));
        NameOrder::Before
    } else if m < n {
        assert(precedes_at(b@, a@, i as int));
        NameOrder::After
    } else {
        assert(a@ =~= b@);
        proof {
            lemma_name_lt_irreflexive(a@);
        }
        NameOrder::Same
    }
}

/// Whether two names are the same.
pub fn same_name(a: &str, b: &str) -> (r: bool)
    ensures
        r == (a@ == b@),
{
    compare_names(a, b) == NameOrder::Same
}

} // verus!
