//! Summaries of a selection of items.

use vstd::prelude::*;
use crate::model::common::{SelectionSummary, SelectionTypeCount};
use crate::order::{holds_string, insert_sorted, seq_lt, strictly_sorted};
use crate::proto;
use crate::text::{copy_string, str_eq};

verus! {

/// How many of `items` carry the type URL `url`.
pub open spec fn url_count(items: Seq<proto::Any>, url: Seq<char>) -> nat
    decreases items.len(),
{
    if items.len() == 0 {
        0
    } else {
        url_count(items.drop_last(), url) + if items.last().type_url@ == url {
            1nat
        } else {
            0nat
        }
    }
}

/// Whether one of `items` carries the type URL `url`.
pub open spec fn carries_url(items: Seq<proto::Any>, url: Seq<char>) -> bool {
    exists|i: int| 0 <= i < items.len() && (#[trigger] items[i]).type_url@ == url
}

fn count_url(items: &[proto::Any], url: &str) -> (r: usize)
    ensures
        r == url_count(items@, url@),
{
    let n = items.len();
    let mut count: usize = 0;
    let mut i: usize = 0;
    assert(items@.take(0) =~= Seq::<proto::Any>::empty());
    while i < n
        invariant
            n == items@.len(),
            i <= n,
            count == url_count(items@.take(i as int), url@),
            count <= i,
        decreases n - i,
    {
        assert(items@.take(i + 1).drop_last() =~= items@.take(i as int));
        if str_eq(items[i].type_url.as_str(), url) {
            count = count + 1;
        }
        i = i + 1;
    }
    assert(items@.take(n as int) =~= items@);
    count
}

/// Summarises a selection: the number of items, and for each type URL that
/// occurs, in the order of strings, how many items carry it.
pub fn summarize_selection(items: &[proto::Any]) -> (r: SelectionSummary)
    ensures
        r.total_items == items@.len(),
        forall|j: int, k: int|
            #![trigger r.type_url_counts@[j], r.type_url_counts@[k]]
            0 <= j < k < r.type_url_counts@.len() ==> seq_lt(
                r.type_url_counts@[j].type_url@,
                r.type_url_counts@[k].type_url@,
            ),
        forall|k: int|
            0 <= k < r.type_url_counts@.len() ==> (#[trigger] r.type_url_counts@[k]).count
                == url_count(items@, r.type_url_counts@[k].type_url@),
        forall|u: Seq<char>|
            carries_url(items@, u) <==> exists|k: int|
                0 <= k < r.type_url_counts@.len() && (#[trigger] r.type_url_counts@[k]).type_url@
                    == u,
{
    let n = items.len();
    let mut urls: Vec<String> = Vec::new();
    let mut i: usize = 0;
    while i < n
        invariant
            n == items@.len(),
            i <= n,
            strictly_sorted(urls@),
            forall|u: Seq<char>| #[trigger]
                holds_string(urls@, u) <==> carries_url(items@.take(i as int), u),
        decreases n - i,
    {
        let ghost before = urls@;
        insert_sorted(&mut urls, copy_string(&items[i].type_url));
        assert forall|u: Seq<char>| #[trigger]
            holds_string(urls@, u) <==> carries_url(items@.take(i + 1), u) by {
            if carries_url(items@.take(i + 1), u) {
                let w = choose|w: int|
                    0 <= w < i + 1 && (#[trigger] items@.take(i + 1)[w]).type_url@ == u;
                if w < i {
                    assert(items@.take(i as int)[w] == items@.take(i + 1)[w]);
                    assert(carries_url(items@.take(i as int), u));
                }
            }
            if carries_url(items@.take(i as int), u) {
                let w = choose|w: int|
                    0 <= w < i && (#[trigger] items@.take(i as int)[w]).type_url@ == u;
                assert(items@.take(i + 1)[w] == items@.take(i as int)[w]);
            }
            if u == items@[i as int].type_url@ {
                assert(items@.take(i + 1)[i as int] == items@[i as int]);
            }
        }
        i = i + 1;
    }
    assert(items@.take(n as int) =~= items@);
    let m = urls.len();
    let mut counts: Vec<SelectionTypeCount> = Vec::new();
    let mut k: usize = 0;
    while k < m
        invariant
            n == items@.len(),
            m == urls@.len(),
            k <= m,
            counts@.len() == k,
            forall|j: int|
                0 <= j < k ==> (#[trigger] counts@[j]).type_url@ == urls@[j]@ && counts@[j].count
                    == url_count(items@, urls@[j]@),
        decreases m - k,
    {
        let count = count_url(items, urls[k].as_str());
        counts.push(SelectionTypeCount { type_url: copy_string(&urls[k]), count });
        k = k + 1;
    }
    proof {
        assert forall|j: int, k: int|
            #![trigger counts@[j], counts@[k]]
            0 <= j < k < counts@.len() implies seq_lt(counts@[j].type_url@, counts@[k].type_url@) by {
            assert(seq_lt(urls@[j]@, urls@[k]@));
        }
        assert forall|u: Seq<char>|
            carries_url(items@, u) implies exists|k: int|
                0 <= k < counts@.len() && (#[trigger] counts@[k]).type_url@ == u by {
            assert(holds_string(urls@, u));
            let w = choose|w: int| 0 <= w < urls@.len() && #[trigger] urls@[w]@ == u;
            assert(counts@[w].type_url@ == u);
        }
        assert forall|u: Seq<char>|
            (exists|k: int| 0 <= k < counts@.len() && (#[trigger] counts@[k]).type_url@ == u)
                implies carries_url(items@, u) by {
            let w = choose|w: int| 0 <= w < counts@.len() && (#[trigger] counts@[w]).type_url@ == u;
            assert(urls@[w]@ == u);
            assert(holds_string(urls@, u));
        }
    }
    SelectionSummary { total_items: n, type_url_counts: counts }
}

} // verus!
