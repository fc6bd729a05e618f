//! The order of strings (`str`'s `Ord`: lexicographic by code point, which
//! UTF-8 byte order agrees with), and sorting and ordered sets built on it.

use vstd::prelude::*;
use crate::text::chars_of;

verus! {

/// Strict lexicographic order of character sequences by code point.
pub open spec fn seq_lt(a: Seq<char>, b: Seq<char>) -> bool
    decreases a.len(),
{
    if b.len() == 0 {
        false
    } else if a.len() == 0 {
        true
    } else if (a[0] as int) < (b[0] as int) {
        true
    } else if a[0] == b[0] {
        seq_lt(a.drop_first(), b.drop_first())
    } else {
        false
    }
}

/// No sequence is below itself.
pub proof fn lemma_seq_lt_irreflexive(a: Seq<char>)
    ensures
        !seq_lt(a, a),
    decreases a.len(),
{
    if a.len() > 0 {
        lemma_seq_lt_irreflexive(a.drop_first());
    }
}

/// The order is transitive.
pub proof fn lemma_seq_lt_transitive(a: Seq<char>, b: Seq<char>, c: Seq<char>)
    requires
        seq_lt(a, b),
        seq_lt(b, c),
    ensures
        seq_lt(a, c),
    decreases a.len(),
{
    if a.len() > 0 && a[0] == b[0] && b[0] == c[0] {
        lemma_seq_lt_transitive(a.drop_first(), b.drop_first(), c.drop_first());
    }
}

/// Any two sequences are equal or one is below the other.
pub proof fn lemma_seq_lt_total(a: Seq<char>, b: Seq<char>)
    ensures
        seq_lt(a, b) || a == b || seq_lt(b, a),
    decreases a.len(),
{
    if a.len() == 0 && b.len() == 0 {
        assert(a =~= b);
    } else if a.len() > 0 && b.len() > 0 && a[0] == b[0] {
        lemma_seq_lt_total(a.drop_first(), b.drop_first());
        if a.drop_first() == b.drop_first() {
            assert(a.len() == b.len());
            assert forall|i: int| 0 <= i < a.len() implies a[i] == b[i] by {
                if i > 0 {
                    assert(a[i] == a.drop_first()[i - 1]);
                    assert(b[i] == b.drop_first()[i - 1]);
                }
            }
            assert(a =~= b);
        }
    }
}

/// The order is asymmetric.
pub proof fn lemma_seq_lt_asymmetric(a: Seq<char>, b: Seq<char>)
    requires
        seq_lt(a, b),
    ensures
        !seq_lt(b, a),
{
    if seq_lt(b, a) {
        lemma_seq_lt_transitive(a, b, a);
        lemma_seq_lt_irreflexive(a);
    }
}

/// Compares two character sequences in the order of strings.
pub fn chars_lt(a: &[char], b: &[char]) -> (r: bool)
    ensures
        r == seq_lt(a@, b@),
{
    let mut i: usize = 0;
    assert(a@.skip(0) =~= a@);
    assert(b@.skip(0) =~= b@);
    loop
        invariant
            i <= a@.len(),
            i <= b@.len(),
            seq_lt(a@, b@) == seq_lt(a@.skip(i as int), b@.skip(i as int)),
        decreases a@.len() - i,
    {
        if i == b.len() {
            return false;
        }
        if i == a.len() {
            return true;
        }
        let x = a[i];
        let y = b[i];
        if x < y {
            return true;
        }
        if x != y {
            return false;
        }
        assert(a@.skip(i as int).drop_first() =~= a@.skip(i + 1));
        assert(b@.skip(i as int).drop_first() =~= b@.skip(i + 1));
        i = i + 1;
    }
}

/// Compares two strings in the order of strings.
pub fn str_lt(a: &str, b: &str) -> (r: bool)
    ensures
        r == seq_lt(a@, b@),
{
    let x = chars_of(a);
    let y = chars_of(b);
    chars_lt(x.as_slice(), y.as_slice())
}

/// Whether a list of strings is strictly increasing (sorted, and without
/// repeats).
pub open spec fn strictly_sorted(s: Seq<String>) -> bool {
    forall|i: int, j: int| #![trigger s[i], s[j]] 0 <= i < j < s.len() ==> seq_lt(s[i]@, s[j]@)
}

/// Whether the list of strings `s` holds `key`.
pub open spec fn holds_string(s: Seq<String>, key: Seq<char>) -> bool {
    exists|i: int| 0 <= i < s.len() && #[trigger] s[i]@ == key
}

/// Finds `key` in a strictly sorted list of strings: its position and
/// `true`, or the position at which it would be inserted and `false`.
pub fn sorted_search(keys: &Vec<String>, key: &str) -> (r: (usize, bool))
    requires
        strictly_sorted(keys@),
    ensures
        r.0 <= keys@.len(),
        r.1 ==> r.0 < keys@.len() && keys@[r.0 as int]@ == key@,
        !r.1 ==> forall|j: int| 0 <= j < r.0 ==> seq_lt(#[trigger] keys@[j]@, key@),
        !r.1 ==> forall|j: int| r.0 <= j < keys@.len() ==> seq_lt(key@, #[trigger] keys@[j]@),
{
    let n = keys.len();
    let mut i: usize = 0;
    while i < n
        invariant
            n == keys@.len(),
            i <= n,
            strictly_sorted(keys@),
            forall|j: int| 0 <= j < i ==> seq_lt(#[trigger] keys@[j]@, key@),
        ensures
            i <= n,
            forall|j: int| 0 <= j < i ==> seq_lt(#[trigger] keys@[j]@, key@),
            i < n ==> !seq_lt(keys@[i as int]@, key@),
        decreases n - i,
    {
        if !str_lt(keys[i].as_str(), key) {
            break;
        }
        i = i + 1;
    }
    if i < n && crate::text::str_eq(keys[i].as_str(), key) {
        return (i, true);
    }
    proof {
        if i < n {
            lemma_seq_lt_total(key@, keys@[i as int]@);
            assert forall|j: int| i <= j < keys@.len() implies seq_lt(key@, #[trigger] keys@[j]@) by {
                if j > i {
                    assert(seq_lt(keys@[i as int]@, keys@[j]@));
                    lemma_seq_lt_transitive(key@, keys@[i as int]@, keys@[j]@);
                }
            }
        }
    }
    (i, false)
}

/// Adds `key` to a strictly sorted list of strings, where it is not yet; the
/// list stays strictly sorted.
pub fn insert_sorted(keys: &mut Vec<String>, key: String)
    requires
        strictly_sorted(old(keys)@),
    ensures
        strictly_sorted(final(keys)@),
        holds_string(final(keys)@, key@),
        forall|k: Seq<char>| #[trigger]
            holds_string(final(keys)@, k) <==> (holds_string(old(keys)@, k) || k == key@),
{
    let (pos, found) = sorted_search(keys, key.as_str());
    if found {
        assert(holds_string(keys@, key@));
        return;
    }
    let ghost before = keys@;
    keys.insert(pos, key);
    let ghost after = keys@;
    assert(after[pos as int]@ == key@);
    assert forall|i: int, j: int| 0 <= i < j < after.len() implies seq_lt(
        #[trigger] after[i]@,
        #[trigger] after[j]@,
    ) by {
        if j < pos {
            assert(after[i] == before[i] && after[j] == before[j]);
        } else if j == pos {
            assert(after[i] == before[i]);
        } else if i < pos {
            assert(after[i] == before[i] && after[j] == before[j - 1]);
            assert(seq_lt(before[i]@, key@));
            assert(seq_lt(key@, before[j - 1]@));
            lemma_seq_lt_transitive(before[i]@, key@, before[j - 1]@);
        } else if i == pos {
            assert(after[j] == before[j - 1]);
        } else {
            assert(after[i] == before[i - 1] && after[j] == before[j - 1]);
        }
    }
    assert(holds_string(after, key@));
    assert forall|k: Seq<char>| #[trigger]
        holds_string(after, k) <==> (holds_string(before, k) || k == key@) by {
        if holds_string(after, k) {
            let i = choose|i: int| 0 <= i < after.len() && #[trigger] after[i]@ == k;
            if i < pos {
                assert(after[i] == before[i]);
            } else if i > pos {
                assert(after[i] == before[i - 1]);
            }
        }
        if holds_string(before, k) {
            let i = choose|i: int| 0 <= i < before.len() && #[trigger] before[i]@ == k;
            if i < pos {
                assert(after[i] == before[i]);
            } else {
                assert(after[i + 1] == before[i]);
            }
        }
    }
}

/// Whether `order` lists the positions `0..n` each once.
pub open spec fn is_permutation(order: Seq<usize>, n: nat) -> bool {
    &&& order.len() == n
    &&& forall|i: int| 0 <= i < order.len() ==> #[trigger] order[i] < n
    &&& forall|i: int, j: int|
        #![trigger order[i], order[j]]
        0 <= i < j < order.len() ==> order[i] != order[j]
}

/// Whether `order` lists the keys in nondecreasing order.
pub open spec fn orders_keys(keys: Seq<String>, order: Seq<usize>) -> bool {
    forall|i: int, j: int|
        #![trigger order[i], order[j]]
        0 <= i < j < order.len() ==> !seq_lt(keys[order[j] as int]@, keys[order[i] as int]@)
}

/// Whether `order` keeps positions with equal keys in their original order.
pub open spec fn keeps_ties_in_order(keys: Seq<String>, order: Seq<usize>) -> bool {
    forall|i: int, j: int|
        #![trigger order[i], order[j]]
        0 <= i < j < order.len() && keys[order[i] as int]@ == keys[order[j] as int]@ ==> order[i]
            < order[j]
}

/// The positions of `keys` in the order of their keys; equal keys keep their
/// order.
pub fn sorted_order(keys: &Vec<String>) -> (order: Vec<usize>)
    ensures
        is_permutation(order@, keys@.len()),
        orders_keys(keys@, order@),
        keeps_ties_in_order(keys@, order@),
{
    let n = keys.len();
    let mut order: Vec<usize> = Vec::new();
    let mut i: usize = 0;
    while i < n
        invariant
            n == keys@.len(),
            i <= n,
            is_permutation(order@, i as nat),
            orders_keys(keys@, order@),
            keeps_ties_in_order(keys@, order@),
        decreases n - i,
    {
        let m = order.len();
        let mut pos: usize = 0;
        while pos < m
            invariant
                n == keys@.len(),
                i < n,
                m == order@.len(),
                pos <= m,
                is_permutation(order@, i as nat),
                forall|j: int| 0 <= j < pos ==> !seq_lt(keys@[i as int]@, #[trigger] keys@[order@[j] as int]@),
            ensures
                pos <= m,
                forall|j: int| 0 <= j < pos ==> !seq_lt(keys@[i as int]@, #[trigger] keys@[order@[j] as int]@),
                pos < m ==> seq_lt(keys@[i as int]@, keys@[order@[pos as int] as int]@),
            decreases m - pos,
        {
            if str_lt(keys[i].as_str(), keys[order[pos]].as_str()) {
                break;
            }
            pos = pos + 1;
        }
        let ghost before = order@;
        proof {
            assert forall|j: int| pos <= j < before.len() implies seq_lt(
                keys@[i as int]@,
                #[trigger] keys@[before[j] as int]@,
            ) by {
                if j > pos {
                    let a = keys@[before[pos as int] as int]@;
                    let b = keys@[before[j] as int]@;
                    assert(!seq_lt(b, a));
                    lemma_seq_lt_total(a, b);
                    if seq_lt(a, b) {
                        lemma_seq_lt_transitive(keys@[i as int]@, a, b);
                    }
                }
            }
        }
        order.insert(pos, i);
        let ghost after = order@;
        assert forall|a: int, b: int| 0 <= a < b < after.len() implies after[a] != after[b] by {
            if a < pos && b < pos {
                assert(after[a] == before[a] && after[b] == before[b]);
            } else if a < pos && b > pos {
                assert(after[a] == before[a] && after[b] == before[b - 1]);
            } else if a > pos {
                assert(after[a] == before[a - 1] && after[b] == before[b - 1]);
            } else if a == pos {
                assert(after[b] == before[b - 1]);
            } else {
                assert(after[a] == before[a]);
            }
        }
        assert forall|a: int| 0 <= a < after.len() implies #[trigger] after[a] < i + 1 by {
            if a < pos {
                assert(after[a] == before[a]);
            } else if a > pos {
                assert(after[a] == before[a - 1]);
            }
        }
        assert forall|a: int, b: int| 0 <= a < b < after.len() implies !seq_lt(
            keys@[after[b] as int]@,
            keys@[after[a] as int]@,
        ) by {
            if b < pos {
                assert(after[a] == before[a] && after[b] == before[b]);
            } else if b == pos {
                assert(after[a] == before[a]);
            } else if a < pos {
                assert(after[a] == before[a] && after[b] == before[b - 1]);
                let x = keys@[before[a] as int]@;
                let y = keys@[before[b - 1] as int]@;
                let k = keys@[i as int]@;
                assert(!seq_lt(k, x));
                assert(seq_lt(k, y));
                lemma_seq_lt_total(k, x);
                if seq_lt(x, k) {
                    lemma_seq_lt_transitive(x, k, y);
                }
                lemma_seq_lt_asymmetric(x, y);
            } else if a == pos {
                assert(after[b] == before[b - 1]);
                lemma_seq_lt_asymmetric(keys@[i as int]@, keys@[before[b - 1] as int]@);
            } else {
                assert(after[a] == before[a - 1] && after[b] == before[b - 1]);
            }
        }
        assert forall|a: int, b: int|
            #![trigger after[a], after[b]]
            0 <= a < b < after.len() && keys@[after[a] as int]@ == keys@[after[b] as int]@
                implies after[a] < after[b] by {
            if b < pos {
                assert(after[a] == before[a] && after[b] == before[b]);
            } else if b == pos {
                assert(after[a] == before[a]);
            } else if a < pos {
                assert(after[a] == before[a] && after[b] == before[b - 1]);
            } else if a == pos {
                assert(after[b] == before[b - 1]);
                lemma_seq_lt_irreflexive(keys@[i as int]@);
            } else {
                assert(after[a] == before[a - 1] && after[b] == before[b - 1]);
            }
        }
        i = i + 1;
    }
    order
}

} // verus!
