//! The record extractor and fetch-and-parse pipeline: locating repeated
//! product containers in fetched markup, mapping each to a product record,
//! and resolving the record's URLs against the page URL.
//!
//! The page fetch itself is the caller's business; each entry point takes
//! the [`FetchOutcome`] the transport produced and classifies it before
//! extraction.

use vstd::prelude::*;
use crate::fetch::FetchOutcome;
use crate::fetch::ScrapeError;
use crate::fetch::ErrorModel;
use crate::fetch::classify_spec;
use crate::fetch::classify_fetch;
use crate::product::Product;
use crate::product::ProductModel;
use crate::selectors::ElementScope;
use crate::selectors::ScopeTarget;
use crate::selectors::SelectorHelper;
use crate::selectors::attr_value_spec;
use crate::selectors::count_matches;
use crate::selectors::match_count;
use crate::selectors::selector_ok;
use crate::selectors::selector_parses;
use crate::selectors::text_value_spec;
use crate::store::StoreConfig;
use crate::store::build_url_spec;
use crate::text::seq_starts_with;
use crate::text::str_starts_with;
use crate::text::trim_end_slashes;
use crate::text::trim_end_slashes_spec;

verus! {

/// What `url::Url::parse` makes of a URL string: nothing when the string
/// does not parse, and otherwise the scheme together with the host part,
/// which a URL may lack.
pub uninterp spec fn scheme_host_of(s: Seq<char>) -> Option<(Seq<char>, Option<Seq<char>>)>;

/// Relies on `url::Url::parse`, `Url::scheme` and `Url::host_str`: the
/// parse of a URL string, and the scheme and host it carries, are
/// functions of the string alone.
#[verifier::external_body]
fn parse_scheme_host(base: &str) -> (r: Option<(String, Option<String>)>)
    ensures
        r.deep_view() == scheme_host_of(base@),
{
    match url::Url::parse(base) {
        Ok(u) => Some((u.scheme().to_string(), u.host_str().map(|h| h.to_string()))),
        Err(_) => None,
    }
}

/// How a candidate URL found in markup is made absolute against the page
/// URL: a candidate already starting with `http` is kept; `//` gets the
/// `https:` scheme; a `/` path is rebuilt on the base's scheme and host
/// (or kept as-is when the base does not parse); anything else is joined
/// to the base with a single `/`.
pub open spec fn resolve_spec(base: Seq<char>, candidate: Seq<char>) -> Seq<char> {
    if seq_starts_with(candidate, "http"@) {
        candidate
    } else if seq_starts_with(candidate, "//"@) {
        "https:"@ + candidate
    } else if seq_starts_with(candidate, "/"@) {
        match scheme_host_of(base) {
            Some(sh) => sh.0 + "://"@ + (match sh.1 {
                Some(h) => h,
                None => Seq::<char>::empty(),
            }) + candidate,
            None => candidate,
        }
    } else {
        trim_end_slashes_spec(base) + "/"@ + candidate
    }
}

/// The record extracted from one element scope, if both required fields
/// are found: the trimmed name and price, the `href` of the link selector
/// resolved against the page URL (the page URL itself when absent), the
/// `src` of the image selector resolved likewise (empty when absent), the
/// owning store's name, and the description text when a description
/// selector is configured.
pub open spec fn extract_record_spec(
    scope: ElementScope,
    cfg: StoreConfig,
    base: Seq<char>,
) -> Option<ProductModel> {
    match (text_value_spec(scope, cfg.name_selector@), text_value_spec(
        scope,
        cfg.price_selector@,
    )) {
        (Some(n), Some(p)) => Some(
            ProductModel {
                name: n,
                price: p,
                url: match attr_value_spec(scope, cfg.link_selector@, "href"@) {
                    Some(u) => resolve_spec(base, u),
                    None => base,
                },
                image_url: match attr_value_spec(scope, cfg.image_selector@, "src"@) {
                    Some(u) => resolve_spec(base, u),
                    None => Seq::<char>::empty(),
                },
                store_name: cfg.name@,
                description: match cfg.description_selector {
                    Some(d) => text_value_spec(scope, d@),
                    None => None,
                },
            },
        ),
        _ => None,
    }
}

/// The records of the first `n` container matches of `body`, in document
/// order, skipping every element that yields no record.
pub open spec fn extract_all_rec(
    body: String,
    cfg: StoreConfig,
    base: Seq<char>,
    n: int,
) -> Seq<ProductModel>
    decreases n,
{
    if n <= 0 {
        Seq::empty()
    } else {
        let scope = ElementScope {
            markup: body,
            target: ScopeTarget::Nth {
                container: cfg.product_container_selector,
                index: (n - 1) as usize,
            },
        };
        let rest = extract_all_rec(body, cfg, base, n - 1);
        match extract_record_spec(scope, cfg, base) {
            Some(p) => rest.push(p),
            None => rest,
        }
    }
}

/// What a listing-page scrape yields for a fetch outcome: the fetch error
/// if the outcome classifies as one; a selector error when the container
/// selector does not parse; and otherwise the records of every container
/// match.
pub open spec fn scrape_result_spec(o: FetchOutcome, cfg: StoreConfig, base: Seq<char>) -> Result<
    Seq<ProductModel>,
    ErrorModel,
> {
    match classify_spec(o) {
        Err(e) => Err(e),
        Ok(body) => {
            if !selector_ok(cfg.product_container_selector@) {
                Err(ErrorModel::Selector(cfg.product_container_selector@))
            } else {
                Ok(
                    extract_all_rec(
                        body,
                        cfg,
                        base,
                        match_count(body@, cfg.product_container_selector@) as int,
                    ),
                )
            }
        },
    }
}

/// What a detail-page scrape yields: the fetch error if the outcome
/// classifies as one, and otherwise the record extracted from the
/// document's root scope, if any.  No container selector is involved.
pub open spec fn scrape_single_spec(o: FetchOutcome, cfg: StoreConfig, base: Seq<char>) -> Result<
    Option<ProductModel>,
    ErrorModel,
> {
    match classify_spec(o) {
        Err(e) => Err(e),
        Ok(body) => Ok(
            extract_record_spec(
                ElementScope { markup: body, target: ScopeTarget::Root },
                cfg,
                base,
            ),
        ),
    }
}

/// The selector-driven page-to-record engine.
#[derive(Debug)]
pub struct WebScraper;

impl WebScraper {
    pub fn new() -> (r: Self) {
        Self
    }

    /// Makes a possibly-relative URL found in markup absolute against
    /// `base_url`.  This is a best-effort resolver: `..` segments, query
    /// strings and fragments are not normalized.
    pub fn resolve_url(&self, base_url: &str, relative_url: &str) -> (r: String)
        ensures
            r@ == resolve_spec(base_url@, relative_url@),
    {
        if str_starts_with(relative_url, "http") {
            relative_url.to_owned()
        } else if str_starts_with(relative_url, "//") {
            let mut s = String::from_str("https:");
            s.append(relative_url);
            s
        } else if str_starts_with(relative_url, "/") {
            match parse_scheme_host(base_url) {
                Some(pair) => {
                    let (scheme, host_opt) = pair;
                    let mut s = scheme;
                    s.append("://");
                    match &host_opt {
                        Some(h) => s.append(h.as_str()),
                        None => {
                            proof {
                                assert(s@ + Seq::<char>::empty() =~= s@);
                            }
                        },
                    }
                    s.append(relative_url);
                    s
                },
                None => relative_url.to_owned(),
            }
        } else {
            let mut s = trim_end_slashes(base_url);
            s.append("/");
            s.append(relative_url);
            s
        }
    }

    /// Extracts one product record from `scope`, or nothing when the name
    /// or the price is missing: no partial record is ever produced.
    pub fn extract_product_data(
        &self,
        scope: &ElementScope,
        store_config: &StoreConfig,
        base_url: &str,
    ) -> (r: Option<Product>)
        ensures
            r.deep_view() == extract_record_spec(*scope, *store_config, base_url@),
    {
        let helper = SelectorHelper::new();
        let name = match helper.extract_text(scope, store_config.name_selector.as_str()) {
            Some(n) => n,
            None => {
                return None;
            },
        };
        let price = match helper.extract_text(scope, store_config.price_selector.as_str()) {
            Some(p) => p,
            None => {
                return None;
            },
        };
        let product_url = match helper.extract_attribute(
            scope,
            store_config.link_selector.as_str(),
            "href",
        ) {
            Some(u) => self.resolve_url(base_url, u.as_str()),
            None => base_url.to_owned(),
        };
        let image_url = match helper.extract_attribute(
            scope,
            store_config.image_selector.as_str(),
            "src",
        ) {
            Some(u) => self.resolve_url(base_url, u.as_str()),
            None => String::new(),
        };
        let description = match &store_config.description_selector {
            Some(desc_selector) => helper.extract_text(scope, desc_selector.as_str()),
            None => None,
        };
        let mut product = Product::new(
            name,
            price,
            product_url,
            image_url,
            store_config.name.clone(),
        );
        if let Some(desc) = description {
            product = product.with_description(desc);
        }
        Some(product)
    }

    /// Scrapes a listing page: classifies `outcome`, requires the
    /// container selector to parse (an unusable container is a hard
    /// error, unlike field selectors), and extracts one record per
    /// container match, dropping incomplete ones silently.
    #[verifier::loop_isolation(false)]
    pub fn scrape_products(
        &self,
        outcome: &FetchOutcome,
        store_config: &StoreConfig,
        url: &str,
    ) -> (r: Result<Vec<Product>, ScrapeError>)
        ensures
            scrape_result_spec(*outcome, *store_config, url@) matches Ok(ps) ==> r matches Ok(v)
                && v.deep_view() == ps,
            scrape_result_spec(*outcome, *store_config, url@) matches Err(em) ==> r matches Err(e)
                && e@ == em,
    {
        let html = match classify_fetch(outcome) {
            Ok(h) => h,
            Err(e) => {
                return Err(e);
            },
        };
        if !selector_parses(store_config.product_container_selector.as_str()) {
            return Err(ScrapeError::Selector(store_config.product_container_selector.clone()));
        }
        let count = count_matches(
            html.as_str(),
            store_config.product_container_selector.as_str(),
        );
        let mut products: Vec<Product> = Vec::new();
        proof {
            assert(products.deep_view() =~= extract_all_rec(html, *store_config, url@, 0));
        }
        let mut i: usize = 0;
        while i < count
            invariant
                i <= count,
                products.deep_view() == extract_all_rec(html, *store_config, url@, i as int),
            decreases count - i,
        {
            let scope = ElementScope {
                markup: html.clone(),
                target: ScopeTarget::Nth {
                    container: store_config.product_container_selector.clone(),
                    index: i,
                },
            };
            let ghost spec_scope = ElementScope {
                markup: html,
                target: ScopeTarget::Nth {
                    container: store_config.product_container_selector,
                    index: i,
                },
            };
            proof {
                assert(scope == spec_scope);
            }
            let ghost prev = products.deep_view();
            match self.extract_product_data(&scope, store_config, url) {
                Some(product) => {
                    let ghost pm = product.deep_view();
                    products.push(product);
                    proof {
                        assert(products.deep_view() =~= prev.push(pm));
                    }
                },
                None => {},
            }
            i += 1;
        }
        Ok(products)
    }

    /// Scrapes a detail page: classifies `outcome` and applies the
    /// per-element extraction to the document's root scope directly.
    pub fn scrape_single_product(
        &self,
        outcome: &FetchOutcome,
        store_config: &StoreConfig,
        url: &str,
    ) -> (r: Result<Option<Product>, ScrapeError>)
        ensures
            scrape_single_spec(*outcome, *store_config, url@) matches Ok(op) ==> r matches Ok(o)
                && o.deep_view() == op,
            scrape_single_spec(*outcome, *store_config, url@) matches Err(em) ==> r matches Err(e)
                && e@ == em,
    {
        let html = match classify_fetch(outcome) {
            Ok(h) => h,
            Err(e) => {
                return Err(e);
            },
        };
        let scope = ElementScope::document_root(html);
        match self.extract_product_data(&scope, store_config, url) {
            Some(product) => Ok(Some(product)),
            None => Ok(None),
        }
    }

    /// Builds the store's search URL for `query` and scrapes the
    /// resulting listing page; `outcome` is what fetching that URL came
    /// back with.
    pub fn search_products(
        &self,
        query: &str,
        outcome: &FetchOutcome,
        store_config: &StoreConfig,
    ) -> (r: Result<Vec<Product>, ScrapeError>)
        ensures
            scrape_result_spec(*outcome, *store_config, build_url_spec(*store_config, query@))
                matches Ok(ps) ==> r matches Ok(v) && v.deep_view() == ps,
            scrape_result_spec(*outcome, *store_config, build_url_spec(*store_config, query@))
                matches Err(em) ==> r matches Err(e) && e@ == em,
    {
        let search_url = store_config.build_search_url(query);
        self.scrape_products(outcome, store_config, search_url.as_str())
    }
}

/// A profile whose description selector is absent (or configured empty)
/// yields records that carry no description.
pub proof fn lemma_no_description_without_selector(
    body: String,
    cfg: StoreConfig,
    base: Seq<char>,
    n: int,
)
    requires
        cfg.description_selector matches Some(d) ==> d@.len() == 0,
    ensures
        forall|j: int|
            0 <= j < extract_all_rec(body, cfg, base, n).len() ==> (#[trigger] extract_all_rec(
                body,
                cfg,
                base,
                n,
            )[j]).description is None,
    decreases n,
{
    if n > 0 {
        lemma_no_description_without_selector(body, cfg, base, n - 1);
        let rest = extract_all_rec(body, cfg, base, n - 1);
        let whole = extract_all_rec(body, cfg, base, n);
        assert forall|j: int| 0 <= j < whole.len() implies (#[trigger] whole[j]).description
            is None by {
            if j < rest.len() {
                assert(whole[j] == rest[j]);
            }
        }
    }
}

/// A container selector that matches nothing yields a successful, empty
/// record sequence, not an error.
pub proof fn lemma_no_container_matches(o: FetchOutcome, cfg: StoreConfig, base: Seq<char>)
    requires
        selector_ok(cfg.product_container_selector@),
        classify_spec(o) matches Ok(b) && match_count(b@, cfg.product_container_selector@) == 0,
    ensures
        scrape_result_spec(o, cfg, base) matches Ok(ps) && ps == Seq::<ProductModel>::empty(),
{
}

/// Resolving a candidate URL that already starts with `http` returns it
/// unchanged, whatever the base: resolution is idempotent on absolute
/// URLs.
pub proof fn lemma_resolve_http_identity(base: Seq<char>, candidate: Seq<char>)
    requires
        seq_starts_with(candidate, "http"@),
    ensures
        resolve_spec(base, candidate) == candidate,
{
}

/// Under a valid profile, no extracted record carries an empty name or
/// price: an element missing either required field is dropped whole.
pub proof fn lemma_required_fields_nonempty(
    body: String,
    cfg: StoreConfig,
    base: Seq<char>,
    n: int,
)
    requires
        cfg.spec_is_valid(),
    ensures
        forall|j: int|
            0 <= j < extract_all_rec(body, cfg, base, n).len() ==> ((#[trigger] extract_all_rec(
                body,
                cfg,
                base,
                n,
            )[j]).name.len() > 0 && extract_all_rec(body, cfg, base, n)[j].price.len() > 0),
    decreases n,
{
    if n > 0 {
        lemma_required_fields_nonempty(body, cfg, base, n - 1);
        let rest = extract_all_rec(body, cfg, base, n - 1);
        let whole = extract_all_rec(body, cfg, base, n);
        assert forall|j: int| 0 <= j < whole.len() implies ((#[trigger] whole[j]).name.len() > 0
            && whole[j].price.len() > 0) by {
            if j < rest.len() {
                assert(whole[j] == rest[j]);
            }
        }
    }
}

} // verus!
