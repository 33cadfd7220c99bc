//! A lightweight single-page summary: three selectors (name, price and an
//! optional image) applied over a whole fetched document, with a fixed
//! fallback line for each field that matches nothing.  Unlike the record
//! extractor, this scrape never drops its result: every field is filled,
//! with the fallback text where extraction found nothing.

use vstd::prelude::*;
use crate::selectors::doc_first_attr;
use crate::selectors::doc_first_text;
use crate::selectors::document_first_attr;
use crate::selectors::document_first_text;
use crate::selectors::selector_ok;
use crate::selectors::selector_parses;
use crate::text::trim_spec;
use crate::text::trim_str;

verus! {

/// The three selectors of a scraping profile for one site: where the
/// product name, the price and the product image live.  An empty image
/// selector means no image is looked for.
#[derive(Debug, Clone)]
pub struct DataSelectors {
    pub product_name: String,
    pub product_price: String,
    pub product_image_url: String,
}

impl Default for DataSelectors {
    /// Selectors for the customary quotation demo site.
    fn default() -> (r: Self)
        ensures
            r.product_name@ == "div.quote span.text"@,
            r.product_price@ == "div.quote small.author"@,
            r.product_image_url@ == Seq::<char>::empty(),
    {
        Self {
            product_name: "div.quote span.text".to_owned(),
            product_price: "div.quote small.author".to_owned(),
            product_image_url: String::new(),
        }
    }
}

/// A named scraping profile: an identifier, a display name, the site's
/// base URL and the selectors to apply there.
#[derive(Debug, Clone)]
pub struct ScrapingProfile {
    pub id: String,
    pub name: String,
    pub base_url: String,
    pub selectors: DataSelectors,
}

impl Default for ScrapingProfile {
    /// The profile for the customary quotation demo site.
    fn default() -> (r: Self)
        ensures
            r.id@ == "quotes-toscrape-com"@,
            r.name@ == "Quotes to Scrape"@,
            r.base_url@ == "http://quotes.toscrape.com/"@,
            r.selectors.product_name@ == "div.quote span.text"@,
            r.selectors.product_price@ == "div.quote small.author"@,
            r.selectors.product_image_url@ == Seq::<char>::empty(),
    {
        Self {
            id: "quotes-toscrape-com".to_owned(),
            name: "Quotes to Scrape".to_owned(),
            base_url: "http://quotes.toscrape.com/".to_owned(),
            selectors: DataSelectors::default(),
        }
    }
}

/// What one page summary holds: the extracted name, price and image URL
/// (or the fallback line of each), and the URL that was scraped.
#[derive(Debug, Clone)]
pub struct ScrapedData {
    pub product_name: String,
    pub product_price: String,
    pub product_image_url: String,
    pub scraped_url: String,
}

/// A summary fails only on an unusable selector; the offending selector
/// text is carried along.
#[derive(Debug, Clone)]
pub enum SummaryError {
    NameSelector(String),
    PriceSelector(String),
    ImageSelector(String),
}

/// A text field of the summary: the trimmed text of the first match over
/// the whole document, or the field's fallback line.
pub open spec fn page_field_spec(doc: Seq<char>, sel: Seq<char>, fallback: Seq<char>) -> Seq<
    char,
> {
    match doc_first_text(doc, sel) {
        Some(t) => trim_spec(t),
        None => fallback,
    }
}

/// The image field of the summary: a fixed line when no image selector is
/// configured, the `src` of the first match, or the not-found line.
pub open spec fn page_image_spec(doc: Seq<char>, sel: Seq<char>) -> Seq<char> {
    if sel.len() == 0 {
        "No image selector configured."@
    } else {
        match doc_first_attr(doc, sel, "src"@) {
            Some(u) => u,
            None => "Image URL not found."@,
        }
    }
}

/// Summarizes a fetched page under the profile's selectors.  The name and
/// price selectors must parse (an empty one does not); the image selector
/// must parse only when it is configured.  No field match is an error:
/// the field carries its fallback line instead.
pub fn summarize_page(body: &str, selectors: &DataSelectors, url: &str) -> (r: Result<
    ScrapedData,
    SummaryError,
>)
    ensures
        ({
            if !selector_ok(selectors.product_name@) {
                r matches Err(e) && e matches SummaryError::NameSelector(s) && s@
                    == selectors.product_name@
            } else if !selector_ok(selectors.product_price@) {
                r matches Err(e) && e matches SummaryError::PriceSelector(s) && s@
                    == selectors.product_price@
            } else if selectors.product_image_url@.len() > 0 && !selector_ok(
                selectors.product_image_url@,
            ) {
                r matches Err(e) && e matches SummaryError::ImageSelector(s) && s@
                    == selectors.product_image_url@
            } else {
                r matches Ok(d) && d.product_name@ == page_field_spec(
                    body@,
                    selectors.product_name@,
                    "Product name not found. (Check selector)"@,
                ) && d.product_price@ == page_field_spec(
                    body@,
                    selectors.product_price@,
                    "Product price not found. (Check selector)"@,
                ) && d.product_image_url@ == page_image_spec(body@, selectors.product_image_url@)
                    && d.scraped_url@ == url@
            }
        }),
{
    if !selector_parses(selectors.product_name.as_str()) {
        return Err(SummaryError::NameSelector(selectors.product_name.clone()));
    }
    if !selector_parses(selectors.product_price.as_str()) {
        return Err(SummaryError::PriceSelector(selectors.product_price.clone()));
    }
    if !selectors.product_image_url.as_str().is_empty() && !selector_parses(
        selectors.product_image_url.as_str(),
    ) {
        return Err(SummaryError::ImageSelector(selectors.product_image_url.clone()));
    }
    let product_name = match document_first_text(body, selectors.product_name.as_str()) {
        Some(t) => trim_str(t.as_str()),
        None => "Product name not found. (Check selector)".to_owned(),
    };
    let product_price = match document_first_text(body, selectors.product_price.as_str()) {
        Some(t) => trim_str(t.as_str()),
        None => "Product price not found. (Check selector)".to_owned(),
    };
    let product_image_url = if selectors.product_image_url.as_str().is_empty() {
        "No image selector configured.".to_owned()
    } else {
        match document_first_attr(body, selectors.product_image_url.as_str(), "src") {
            Some(u) => u,
            None => "Image URL not found.".to_owned(),
        }
    };
    Ok(
        ScrapedData {
            product_name,
            product_price,
            product_image_url,
            scraped_url: url.to_owned(),
        },
    )
}

} // verus!
