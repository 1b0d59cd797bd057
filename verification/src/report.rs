//! The aggregator: per-product counts collected into a final tally.

use vstd::prelude::*;

verus! {

/// The outcome of one product's completed scrape: the product and how many
/// of its reviews were written.
#[derive(Clone, Copy, Debug)]
pub struct ScrapeResult {
    pub app_id: u32,
    pub reviews_scraped: usize,
}

/// The combined count over a list of per-product results.
pub open spec fn spec_total(results: Seq<ScrapeResult>) -> nat
    decreases results.len(),
{
    if results.len() == 0 {
        0
    } else {
        results[0].reviews_scraped as nat + spec_total(results.skip(1))
    }
}

/// Sums the per-product counts. The total must fit the accumulator; the
/// counts themselves bound it, so any caller can check first.
pub fn total_reviews(results: &Vec<ScrapeResult>) -> (t: u64)
    requires
        spec_total(results@) <= u64::MAX,
    ensures
        t == spec_total(results@),
{
    let n = results.len();
    let mut t: u64 = 0;
    let mut i: usize = 0;
    proof {
        assert(results@.skip(0) =~= results@);
    }
    while i < n
        invariant
            n == results@.len(),
            i <= n,
            t + spec_total(results@.skip(i as int)) == spec_total(results@),
            spec_total(results@) <= u64::MAX,
        decreases n - i,
    {
        proof {
            assert(results@.skip(i as int)[0] == results@[i as int]);
            assert(results@.skip(i as int).skip(1) =~= results@.skip(i + 1));
        }
        t = t + results[i].reviews_scraped as u64;
        i += 1;
    }
    proof {
        assert(results@.skip(n as int) =~= Seq::<ScrapeResult>::empty());
    }
    t
}

/// Some result reports this product.
pub open spec fn has_result(results: Seq<ScrapeResult>, id: u32) -> bool {
    exists|j: int| 0 <= j < results.len() && #[trigger] results[j].app_id == id
}

/// Whether every requested product has a result: absence of one is a
/// contract violation the caller treats as fatal, never a silent omission.
pub fn all_ids_reported(app_ids: &Vec<u32>, results: &Vec<ScrapeResult>) -> (ok: bool)
    ensures
        ok == forall|k: int| 0 <= k < app_ids@.len() ==> has_result(results@, #[trigger] app_ids@[k]),
{
    let n = app_ids.len();
    let m = results.len();
    let mut i: usize = 0;
    while i < n
        invariant
            n == app_ids@.len(),
            m == results@.len(),
            i <= n,
            forall|k: int| 0 <= k < i ==> has_result(results@, #[trigger] app_ids@[k]),
        decreases n - i,
    {
        let mut found = false;
        let mut j: usize = 0;
        while j < m
            invariant
                m == results@.len(),
                j <= m,
                n == app_ids@.len(),
                i < n,
                found ==> has_result(results@, app_ids@[i as int]),
                !found ==> forall|l: int|
                    0 <= l < j ==> #[trigger] results@[l].app_id != app_ids@[i as int],
            decreases m - j,
        {
            if results[j].app_id == app_ids[i] {
                proof {
                    assert(results@[j as int].app_id == app_ids@[i as int]);
                }
                found = true;
            }
            j += 1;
        }
        if !found {
            proof {
                assert(!has_result(results@, app_ids@[i as int]));
            }
            return false;
        }
        i += 1;
    }
    true
}

} // verus!
