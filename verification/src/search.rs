//! The multi-store aggregator: one search across every enabled store
//! profile, collecting partial successes and counting failures, with no
//! fail-fast.
//!
//! The caller fetches one page per enabled store (the search URL of the
//! `k`-th enabled profile, built for the query) and hands the outcomes
//! over in the same order; everything after the transfers is verified.

use vstd::prelude::*;
use crate::fetch::FetchOutcome;
use crate::fetch::message_spec;
use crate::product::Product;
use crate::product::ProductModel;
use crate::scrape::WebScraper;
use crate::scrape::scrape_result_spec;
use crate::store::StoreConfig;
use crate::store::StoreManager;
use crate::store::build_url_spec;
use crate::store::enabled_spec;
use crate::text::dec_spec;
use crate::text::u64_to_string;

verus! {

/// The aggregate over the first `n` enabled stores: the concatenated
/// records in store order, then the success count, then the failure
/// count.  Store `k` contributes the result of scraping its search URL
/// for the query with outcome `outs[k]`.
pub open spec fn aggregate_spec(
    query: Seq<char>,
    en: Seq<StoreConfig>,
    outs: Seq<FetchOutcome>,
    n: int,
) -> (Seq<ProductModel>, int, int)
    decreases n,
{
    if n <= 0 {
        (Seq::empty(), 0, 0)
    } else {
        let acc = aggregate_spec(query, en, outs, n - 1);
        match scrape_result_spec(outs[n - 1], en[n - 1], build_url_spec(en[n - 1], query)) {
            Ok(ps) => (acc.0 + ps, acc.1 + 1, acc.2),
            Err(_) => (acc.0, acc.1, acc.2 + 1),
        }
    }
}

/// The diagnostics gathered over the first `n` enabled stores: one entry
/// per failed store, keyed by the store's name, carrying the error's
/// message line.
pub open spec fn diagnostics_spec(
    query: Seq<char>,
    en: Seq<StoreConfig>,
    outs: Seq<FetchOutcome>,
    n: int,
) -> Seq<(Seq<char>, Seq<char>)>
    decreases n,
{
    if n <= 0 {
        Seq::empty()
    } else {
        let rest = diagnostics_spec(query, en, outs, n - 1);
        match scrape_result_spec(outs[n - 1], en[n - 1], build_url_spec(en[n - 1], query)) {
            Ok(_) => rest,
            Err(em) => rest.push((en[n - 1].name@, message_spec(em))),
        }
    }
}

/// Every store is counted exactly once, as a success or as a failure.
pub proof fn lemma_aggregate_counts(
    query: Seq<char>,
    en: Seq<StoreConfig>,
    outs: Seq<FetchOutcome>,
    n: int,
)
    requires
        n >= 0,
    ensures
        aggregate_spec(query, en, outs, n).1 + aggregate_spec(query, en, outs, n).2 == n,
        aggregate_spec(query, en, outs, n).1 >= 0,
        aggregate_spec(query, en, outs, n).2 >= 0,
    decreases n,
{
    if n > 0 {
        lemma_aggregate_counts(query, en, outs, n - 1);
    }
}

/// The result of one multi-store search: every record found, in store
/// order and in-page order within a store, the counts of stores that
/// succeeded and failed, and one diagnostic line per failed store, keyed
/// by the store's name.
#[derive(Debug)]
pub struct SearchOutcome {
    pub products: Vec<Product>,
    pub successful: usize,
    pub failed: usize,
    pub diagnostics: Vec<(String, String)>,
}

/// The status line after a search pass.
pub open spec fn status_spec(s: nat, f: nat, t: nat) -> Seq<char> {
    dec_spec(s) + " succeeded, "@ + dec_spec(f) + " failed, "@ + dec_spec(t) + " products"@
}

impl SearchOutcome {
    /// The status line summarizing this outcome.
    pub fn status_message(&self) -> (r: String)
        ensures
            r@ == status_spec(
                self.successful as nat,
                self.failed as nat,
                self.products@.len() as nat,
            ),
    {
        let mut s = u64_to_string(self.successful as u64);
        s.append(" succeeded, ");
        s.append(u64_to_string(self.failed as u64).as_str());
        s.append(" failed, ");
        s.append(u64_to_string(self.products.len() as u64).as_str());
        s.append(" products");
        s
    }
}

/// Runs the search over every enabled profile, in list order: store `k`'s
/// records are appended on success, and a failure is counted and skipped,
/// never aborting the pass.  `outcomes[k]` is what fetching the `k`-th
/// enabled store's search URL came back with.
#[verifier::loop_isolation(false)]
pub fn search_all(
    scraper: &WebScraper,
    query: &str,
    store_manager: &StoreManager,
    outcomes: &Vec<FetchOutcome>,
) -> (r: SearchOutcome)
    requires
        outcomes@.len() == enabled_spec(store_manager.stores@).len(),
    ensures
        ({
            let agg = aggregate_spec(
                query@,
                enabled_spec(store_manager.stores@),
                outcomes@,
                outcomes@.len() as int,
            );
            &&& r.products.deep_view() == agg.0
            &&& r.successful == agg.1
            &&& r.failed == agg.2
            &&& r.diagnostics.deep_view() == diagnostics_spec(
                query@,
                enabled_spec(store_manager.stores@),
                outcomes@,
                outcomes@.len() as int,
            )
        }),
{
    let ghost en = enabled_spec(store_manager.stores@);
    let enabled = store_manager.get_enabled_stores();
    let n = enabled.len();
    let mut products: Vec<Product> = Vec::new();
    let mut successful: usize = 0;
    let mut failed: usize = 0;
    let mut diagnostics: Vec<(String, String)> = Vec::new();
    proof {
        assert(products.deep_view() =~= aggregate_spec(query@, en, outcomes@, 0).0);
        assert(diagnostics.deep_view() =~= diagnostics_spec(query@, en, outcomes@, 0));
    }
    let mut k: usize = 0;
    while k < n
        invariant
            k <= n,
            products.deep_view() == aggregate_spec(query@, en, outcomes@, k as int).0,
            successful == aggregate_spec(query@, en, outcomes@, k as int).1,
            failed == aggregate_spec(query@, en, outcomes@, k as int).2,
            diagnostics.deep_view() == diagnostics_spec(query@, en, outcomes@, k as int),
            successful + failed == k,
        decreases n - k,
    {
        let store = enabled[k];
        let ghost prev = products.deep_view();
        let ghost prev_diag = diagnostics.deep_view();
        match scraper.search_products(query, &outcomes[k], store) {
            Ok(mut found) => {
                let ghost found_dv = found.deep_view();
                products.append(&mut found);
                successful = successful + 1;
                proof {
                    assert(products.deep_view() =~= prev + found_dv);
                }
            },
            Err(e) => {
                failed = failed + 1;
                let message = e.message();
                let ghost message_view = message@;
                diagnostics.push((store.name.clone(), message));
                proof {
                    assert(diagnostics.deep_view() =~= prev_diag.push(
                        (store.name@, message_view),
                    ));
                }
            },
        }
        k += 1;
    }
    SearchOutcome { products, successful, failed, diagnostics }
}

/// The search pane's state: the query text, whether a search pass is
/// running, and the latest status line.
#[derive(Debug)]
pub struct SearchTab {
    pub search_term: String,
    pub is_searching: bool,
    pub search_status: String,
    pub scraper: WebScraper,
}

impl SearchTab {
    /// A fresh pane with an empty query and no status.
    pub fn new() -> (r: Self)
        ensures
            r.search_term@ == Seq::<char>::empty(),
            !r.is_searching,
            r.search_status@ == Seq::<char>::empty(),
    {
        Self {
            search_term: String::new(),
            is_searching: false,
            search_status: String::new(),
            scraper: WebScraper::new(),
        }
    }

    /// Marks the pane as searching.
    pub fn start_search(&mut self)
        ensures
            final(self).is_searching,
            final(self).search_status@ == "Starting search..."@,
            final(self).search_term == old(self).search_term,
    {
        self.is_searching = true;
        self.search_status = "Starting search...".to_owned();
    }

    /// Runs the multi-store search and records its status line; yields
    /// the found records, or nothing when every store came back empty.
    pub fn perform_search(
        &mut self,
        query: &str,
        store_manager: &StoreManager,
        outcomes: &Vec<FetchOutcome>,
    ) -> (r: Option<Vec<Product>>)
        requires
            outcomes@.len() == enabled_spec(store_manager.stores@).len(),
        ensures
            ({
                let agg = aggregate_spec(
                    query@,
                    enabled_spec(store_manager.stores@),
                    outcomes@,
                    outcomes@.len() as int,
                );
                &&& agg.0.len() > 0 ==> (r matches Some(v) && v.deep_view() == agg.0)
                &&& agg.0.len() == 0 ==> r is None
                &&& !final(self).is_searching
                &&& final(self).search_status@ == status_spec(
                    agg.1 as nat,
                    agg.2 as nat,
                    agg.0.len(),
                )
                &&& final(self).search_term == old(self).search_term
            }),
    {
        let outcome = search_all(&self.scraper, query, store_manager, outcomes);
        self.search_status = outcome.status_message();
        self.is_searching = false;
        if outcome.products.is_empty() {
            None
        } else {
            Some(outcome.products)
        }
    }
}

} // verus!
