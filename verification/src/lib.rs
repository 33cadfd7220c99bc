//! A configurable store-scraping engine.
//!
//! A user-defined store profile carries a base URL, a search URL template and
//! a set of CSS selectors.  Given the markup of a fetched page, the engine
//! locates repeated product containers, maps each one to a structured product
//! record, resolves relative URLs against the page URL, and aggregates the
//! records of several stores into one ordered outcome with per-store success
//! and failure counts.
//!
//! Network transfer and on-disk persistence are left to the caller: the
//! engine consumes the outcome of a page fetch as a plain value and returns
//! plain values back.

pub mod fetch;
pub mod files;
pub mod product;
pub mod scrape;
pub mod search;
pub mod selectors;
pub mod store;
pub mod store_tab;
pub mod summary;
pub mod text;

pub use fetch::FetchOutcome;
pub use fetch::ScrapeError;
pub use files::AppConfig;
pub use files::FileManager;
pub use product::Product;
pub use scrape::WebScraper;
pub use search::SearchOutcome;
pub use search::SearchTab;
pub use selectors::ElementScope;
pub use selectors::FieldKind;
pub use selectors::ScopeTarget;
pub use selectors::SelectorHelper;
pub use store::StoreConfig;
pub use store::StoreManager;
pub use store_tab::StoreTab;
pub use summary::DataSelectors;
pub use summary::ScrapedData;
pub use summary::ScrapingProfile;
pub use summary::SummaryError;
