//! The delimited-text export of product records, and the application
//! configuration record.  Reading and writing files is the caller's
//! business; the export here is the pure formatting step.

use vstd::prelude::*;
use crate::product::Product;
use crate::product::ProductModel;
use crate::text::replace_spec;
use crate::text::replace_str;

verus! {

/// A field value with every embedded double quote doubled.
pub open spec fn csv_escape_spec(s: Seq<char>) -> Seq<char> {
    replace_spec(s, "\""@, "\"\""@)
}

/// A field value escaped and wrapped in double quotes.
pub open spec fn csv_field_spec(s: Seq<char>) -> Seq<char> {
    "\""@ + csv_escape_spec(s) + "\""@
}

/// One record as a comma-separated line of its name, price, URL, store
/// name and description (empty when absent), each field quoted.
pub open spec fn csv_line_spec(p: ProductModel) -> Seq<char> {
    csv_field_spec(p.name) + ","@ + csv_field_spec(p.price) + ","@ + csv_field_spec(p.url) + ","@
        + csv_field_spec(p.store_name) + ","@ + csv_field_spec(
        match p.description {
            Some(d) => d,
            None => Seq::<char>::empty(),
        },
    ) + "\n"@
}

/// The header line followed by one line per record, for the first `n`
/// records.
pub open spec fn csv_spec(ps: Seq<ProductModel>, n: int) -> Seq<char>
    decreases n,
{
    if n <= 0 {
        "Name,Price,URL,Store,Description\n"@
    } else {
        csv_spec(ps, n - 1) + csv_line_spec(ps[n - 1])
    }
}

/// One escaped, quoted field.
fn csv_field(s: &str) -> (r: String)
    ensures
        r@ == csv_field_spec(s@),
{
    let mut out = String::from_str("\"");
    out.append(replace_str(s, "\"", "\"\"").as_str());
    out.append("\"");
    out
}

/// One record's line.
fn csv_line(p: &Product) -> (r: String)
    ensures
        r@ == csv_line_spec(p@),
{
    let mut out = csv_field(p.name.as_str());
    out.append(",");
    out.append(csv_field(p.price.as_str()).as_str());
    out.append(",");
    out.append(csv_field(p.url.as_str()).as_str());
    out.append(",");
    out.append(csv_field(p.store_name.as_str()).as_str());
    out.append(",");
    match &p.description {
        Some(d) => out.append(csv_field(d.as_str()).as_str()),
        None => {
            proof {
                reveal_strlit("");
            }
            out.append(csv_field("").as_str());
        },
    }
    out.append("\n");
    out
}

/// Hands values to and from whatever keeps them; the formatting of the
/// delimited-text export lives here.
#[derive(Debug)]
pub struct FileManager;

impl FileManager {
    pub fn new() -> (r: Self) {
        Self
    }

    /// The delimited-text rendering of `products`: a header line, then
    /// one quoted, comma-separated line per record, with embedded double
    /// quotes doubled.
    #[verifier::loop_isolation(false)]
    pub fn export_csv(&self, products: &Vec<Product>) -> (r: String)
        ensures
            r@ == csv_spec(products.deep_view(), products@.len() as int),
    {
        let mut out = String::from_str("Name,Price,URL,Store,Description\n");
        let n = products.len();
        let mut i: usize = 0;
        while i < n
            invariant
                i <= n,
                out@ == csv_spec(products.deep_view(), i as int),
            decreases n - i,
        {
            out.append(csv_line(&products[i]).as_str());
            i += 1;
        }
        out
    }
}

/// The application-wide configuration record.
#[derive(Debug, Clone)]
pub struct AppConfig {
    pub max_products_per_store: usize,
    pub request_delay_ms: u64,
    pub user_agent: String,
    pub auto_save_results: bool,
    pub theme: String,
}

impl Default for AppConfig {
    /// The configuration used until the caller has stored one.
    fn default() -> (r: Self)
        ensures
            r.max_products_per_store == 50,
            r.request_delay_ms == 1000,
            r.user_agent@ == "Mozilla/5.0 (Windows NT 10.0; Win64; x64) AppleWebKit/537.36"@,
            r.auto_save_results,
            r.theme@ == "dark"@,
    {
        Self {
            max_products_per_store: 50,
            request_delay_ms: 1000,
            user_agent: "Mozilla/5.0 (Windows NT 10.0; Win64; x64) AppleWebKit/537.36".to_owned(),
            auto_save_results: true,
            theme: "dark".to_owned(),
        }
    }
}

} // verus!
