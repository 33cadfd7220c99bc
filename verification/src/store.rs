//! Store profiles: the per-store scraping configuration and the ordered
//! collection of profiles that a multi-store search runs over.

use vstd::prelude::*;
use crate::selectors::FieldKind;
use crate::text::replace_spec;
use crate::text::replace_str;

verus! {

/// The scraping configuration for one target store: its name, base URL,
/// search URL template (with `{base_url}` and `{query}` placeholders), the
/// CSS selectors used for extraction, and whether the store takes part in
/// multi-store searches.
#[derive(Debug, Clone)]
pub struct StoreConfig {
    pub name: String,
    pub base_url: String,
    pub search_url_pattern: String,
    pub product_container_selector: String,
    pub name_selector: String,
    pub price_selector: String,
    pub image_selector: String,
    pub link_selector: String,
    pub description_selector: Option<String>,
    pub enabled: bool,
}

/// The search URL for `query`: the template with `{base_url}` replaced by
/// the store's base URL, then `{query}` replaced by the query text.
pub open spec fn build_url_spec(cfg: StoreConfig, query: Seq<char>) -> Seq<char> {
    replace_spec(
        replace_spec(cfg.search_url_pattern@, "{base_url}"@, cfg.base_url@),
        "{query}"@,
        query,
    )
}

impl Default for StoreConfig {
    /// An empty profile with the customary search template, enabled.
    fn default() -> (r: Self)
        ensures
            r.name@ == Seq::<char>::empty(),
            r.base_url@ == Seq::<char>::empty(),
            r.search_url_pattern@ == "{base_url}/search?q={query}"@,
            r.product_container_selector@ == Seq::<char>::empty(),
            r.name_selector@ == Seq::<char>::empty(),
            r.price_selector@ == Seq::<char>::empty(),
            r.image_selector@ == Seq::<char>::empty(),
            r.link_selector@ == Seq::<char>::empty(),
            r.description_selector is None,
            r.enabled,
    {
        Self {
            name: String::new(),
            base_url: String::new(),
            search_url_pattern: "{base_url}/search?q={query}".to_owned(),
            product_container_selector: String::new(),
            name_selector: String::new(),
            price_selector: String::new(),
            image_selector: String::new(),
            link_selector: String::new(),
            description_selector: None,
            enabled: true,
        }
    }
}

impl StoreConfig {
    /// A fresh profile for `name` at `base_url`, with every other field at
    /// its default.
    pub fn new(name: String, base_url: String) -> (r: Self)
        ensures
            r.name == name,
            r.base_url == base_url,
            r.search_url_pattern@ == "{base_url}/search?q={query}"@,
            r.product_container_selector@ == Seq::<char>::empty(),
            r.name_selector@ == Seq::<char>::empty(),
            r.price_selector@ == Seq::<char>::empty(),
            r.image_selector@ == Seq::<char>::empty(),
            r.link_selector@ == Seq::<char>::empty(),
            r.description_selector is None,
            r.enabled,
    {
        let mut r = Self::default();
        r.name = name;
        r.base_url = base_url;
        r
    }

    /// The search URL for `query`, by literal placeholder substitution.
    /// Query text that itself contains a placeholder token is substituted
    /// literally as well; there is no escaping.
    pub fn build_search_url(&self, query: &str) -> (r: String)
        ensures
            r@ == build_url_spec(*self, query@),
    {
        let with_base = replace_str(
            self.search_url_pattern.as_str(),
            "{base_url}",
            self.base_url.as_str(),
        );
        replace_str(with_base.as_str(), "{query}", query)
    }

    /// A profile is valid when its name, base URL, container selector, name
    /// selector and price selector are all non-empty.
    pub open spec fn spec_is_valid(&self) -> bool {
        self.name@.len() > 0 && self.base_url@.len() > 0
            && self.product_container_selector@.len() > 0 && self.name_selector@.len() > 0
            && self.price_selector@.len() > 0
    }

    /// Whether the profile may be used for scraping at all.
    pub fn is_valid(&self) -> (r: bool)
        ensures
            r == self.spec_is_valid(),
    {
        !self.name.as_str().is_empty() && !self.base_url.as_str().is_empty()
            && !self.product_container_selector.as_str().is_empty()
            && !self.name_selector.as_str().is_empty()
            && !self.price_selector.as_str().is_empty()
    }
}

/// `cfg` with the selector field named by `kind` set to `value`; a
/// description suggestion configures the optional description selector.
pub open spec fn applied_config(cfg: StoreConfig, kind: FieldKind, value: String) -> StoreConfig {
    StoreConfig {
        name: cfg.name,
        base_url: cfg.base_url,
        search_url_pattern: cfg.search_url_pattern,
        product_container_selector: if kind is Container {
            value
        } else {
            cfg.product_container_selector
        },
        name_selector: if kind is Title {
            value
        } else {
            cfg.name_selector
        },
        price_selector: if kind is Price {
            value
        } else {
            cfg.price_selector
        },
        image_selector: if kind is Image {
            value
        } else {
            cfg.image_selector
        },
        link_selector: if kind is Link {
            value
        } else {
            cfg.link_selector
        },
        description_selector: if kind is Description {
            Some(value)
        } else {
            cfg.description_selector
        },
        enabled: cfg.enabled,
    }
}

impl StoreConfig {
    /// Writes `value` into the selector field that `kind` names: the
    /// closed, exhaustive dispatch from a field kind to the profile field
    /// it configures.
    pub fn set_selector(&mut self, kind: FieldKind, value: String)
        ensures
            *final(self) == applied_config(*old(self), kind, value),
    {
        match kind {
            FieldKind::Container => {
                self.product_container_selector = value;
            },
            FieldKind::Title => {
                self.name_selector = value;
            },
            FieldKind::Price => {
                self.price_selector = value;
            },
            FieldKind::Image => {
                self.image_selector = value;
            },
            FieldKind::Link => {
                self.link_selector = value;
            },
            FieldKind::Description => {
                self.description_selector = Some(value);
            },
        }
    }
}

/// The ordered list of store profiles, mutated only through add, update and
/// remove-by-index operations.
#[derive(Debug)]
pub struct StoreManager {
    pub stores: Vec<StoreConfig>,
}

/// The enabled profiles of `stores`, in list order.
pub open spec fn enabled_spec(stores: Seq<StoreConfig>) -> Seq<StoreConfig> {
    stores.filter(|s: StoreConfig| s.enabled)
}

/// Appending a profile keeps the enabled subsequence, extending it by the
/// profile exactly when that profile is enabled.
pub proof fn lemma_enabled_push(s: Seq<StoreConfig>, x: StoreConfig)
    ensures
        enabled_spec(s.push(x)) == if x.enabled {
            enabled_spec(s).push(x)
        } else {
            enabled_spec(s)
        },
{
    reveal(Seq::filter);
    assert(s.push(x).drop_last() =~= s);
}

impl Default for StoreManager {
    /// A collection holding one sample profile, as a starting point for a
    /// fresh configuration.
    fn default() -> (r: Self)
        ensures
            r.stores@.len() == 1,
            r.stores@[0].name@ == "Ejemplo Store"@,
            r.stores@[0].base_url@ == "https://ejemplo.com"@,
            r.stores@[0].search_url_pattern@ == "{base_url}/search?q={query}"@,
            r.stores@[0].product_container_selector@ == ".product-item"@,
            r.stores@[0].name_selector@ == ".product-name"@,
            r.stores@[0].price_selector@ == ".price"@,
            r.stores@[0].image_selector@ == ".product-image img"@,
            r.stores@[0].link_selector@ == "a"@,
            r.stores@[0].description_selector matches Some(d) && d@ == ".description"@,
            r.stores@[0].enabled,
    {
        let sample = StoreConfig {
            name: "Ejemplo Store".to_owned(),
            base_url: "https://ejemplo.com".to_owned(),
            search_url_pattern: "{base_url}/search?q={query}".to_owned(),
            product_container_selector: ".product-item".to_owned(),
            name_selector: ".product-name".to_owned(),
            price_selector: ".price".to_owned(),
            image_selector: ".product-image img".to_owned(),
            link_selector: "a".to_owned(),
            description_selector: Some(".description".to_owned()),
            enabled: true,
        };
        let mut stores: Vec<StoreConfig> = Vec::new();
        stores.push(sample);
        Self { stores }
    }
}

impl StoreManager {
    /// An empty collection.
    pub fn new() -> (r: Self)
        ensures
            r.stores@ == Seq::<StoreConfig>::empty(),
    {
        Self { stores: Vec::new() }
    }

    /// Appends `store` at the end of the list.
    pub fn add_store(&mut self, store: StoreConfig)
        ensures
            final(self).stores@ == old(self).stores@.push(store),
    {
        self.stores.push(store);
    }

    /// Removes and returns the profile at `index`; out-of-range indices
    /// leave the list unchanged and return nothing.
    pub fn remove_store(&mut self, index: usize) -> (r: Option<StoreConfig>)
        ensures
            index < old(self).stores@.len() ==> {
                &&& r == Some(old(self).stores@[index as int])
                &&& final(self).stores@ == old(self).stores@.remove(index as int)
            },
            index >= old(self).stores@.len() ==> {
                &&& r is None
                &&& final(self).stores@ == old(self).stores@
            },
    {
        if index < self.stores.len() {
            Some(self.stores.remove(index))
        } else {
            None
        }
    }

    /// The enabled profiles, in list order.
    #[verifier::loop_isolation(false)]
    pub fn get_enabled_stores(&self) -> (r: Vec<&StoreConfig>)
        ensures
            r@.len() == enabled_spec(self.stores@).len(),
            forall|j: int|
                0 <= j < r@.len() ==> *(#[trigger] r@[j]) == enabled_spec(self.stores@)[j],
    {
        let mut r: Vec<&StoreConfig> = Vec::new();
        proof {
            reveal(Seq::filter);
            assert(enabled_spec(self.stores@.take(0)) =~= Seq::<StoreConfig>::empty());
        }
        let n = self.stores.len();
        let mut i: usize = 0;
        while i < n
            invariant
                i <= n,
                r@.len() == enabled_spec(self.stores@.take(i as int)).len(),
                forall|j: int|
                    0 <= j < r@.len() ==> *(#[trigger] r@[j]) == enabled_spec(
                        self.stores@.take(i as int),
                    )[j],
            decreases n - i,
        {
            let ghost prev = r@;
            let elem = &self.stores[i];
            if elem.enabled {
                r.push(elem);
            }
            proof {
                lemma_enabled_push(self.stores@.take(i as int), self.stores@[i as int]);
                assert(self.stores@.take(i as int).push(self.stores@[i as int]) =~= self.stores@
                    .take(i + 1));
            }
            i += 1;
        }
        proof {
            assert(self.stores@.take(n as int) =~= self.stores@);
        }
        r
    }

    /// Overwrites the profile at `index`; reports whether the index was in
    /// range.
    pub fn update_store(&mut self, index: usize, updated_store: StoreConfig) -> (r: bool)
        ensures
            index < old(self).stores@.len() ==> {
                &&& r
                &&& final(self).stores@ == old(self).stores@.update(index as int, updated_store)
            },
            index >= old(self).stores@.len() ==> {
                &&& !r
                &&& final(self).stores@ == old(self).stores@
            },
    {
        if index < self.stores.len() {
            self.stores[index] = updated_store;
            true
        } else {
            false
        }
    }
}

} // verus!
