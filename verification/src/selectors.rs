//! The selector layer: applying CSS selector strings to parsed markup.
//!
//! Parsing HTML and matching CSS selectors is the work of the `scraper`
//! crate.  Each call into it stands behind a trusted wrapper whose result
//! is named by an uninterpreted spec function over plain values (the
//! markup text, the selector text, and an element index), so that
//! everything around the calls -- the empty-selector sentinel, the
//! swallowing of invalid field selectors, trimming, and the dropping of
//! blank text -- is verified.
//!
//! An element within a page is addressed by an [`ElementScope`]: the
//! markup it lives in, together with either the document root or the
//! position of the element among the matches of a container selector.

use vstd::prelude::*;
use crate::text::seq_eq_ci;
use crate::text::str_eq_ci;
use crate::text::trim_spec;
use crate::text::trim_str;

verus! {

/// Whether `sel` parses as a CSS selector list
/// (`scraper::Selector::parse` succeeds on it).
pub uninterp spec fn selector_ok(sel: Seq<char>) -> bool;

/// The number of elements matching `sel` in the document parsed from
/// `doc` (`Html::parse_document`, then `Html::select`).
pub uninterp spec fn match_count(doc: Seq<char>, sel: Seq<char>) -> nat;

/// The concatenated descendant text of the first element matching `sel`
/// within the `idx`-th element matching `container` in the document
/// parsed from `doc`; nothing when no element matches `sel` there.
pub uninterp spec fn elem_first_text(
    doc: Seq<char>,
    container: Seq<char>,
    idx: int,
    sel: Seq<char>,
) -> Option<Seq<char>>;

/// The value of attribute `attr` on the first element matching `sel`
/// within the `idx`-th element matching `container` in the document
/// parsed from `doc`; nothing when no element matches or the attribute is
/// absent.
pub uninterp spec fn elem_first_attr(
    doc: Seq<char>,
    container: Seq<char>,
    idx: int,
    sel: Seq<char>,
    attr: Seq<char>,
) -> Option<Seq<char>>;

/// The concatenated descendant texts of every element matching `sel`
/// within the `idx`-th element matching `container`, in document order.
pub uninterp spec fn elem_all_texts(
    doc: Seq<char>,
    container: Seq<char>,
    idx: int,
    sel: Seq<char>,
) -> Seq<Seq<char>>;

/// As [`elem_first_text`], but within the root element of the document
/// parsed from `doc`.
pub uninterp spec fn root_first_text(doc: Seq<char>, sel: Seq<char>) -> Option<Seq<char>>;

/// As [`elem_first_attr`], but within the root element of the document
/// parsed from `doc`.
pub uninterp spec fn root_first_attr(doc: Seq<char>, sel: Seq<char>, attr: Seq<char>) -> Option<
    Seq<char>,
>;

/// As [`elem_all_texts`], but within the root element of the document
/// parsed from `doc`.
pub uninterp spec fn root_all_texts(doc: Seq<char>, sel: Seq<char>) -> Seq<Seq<char>>;

/// The concatenated descendant text of the first match of `sel` over the
/// whole document parsed from `doc` (`Html::select`, which may also match
/// the root element itself).
pub uninterp spec fn doc_first_text(doc: Seq<char>, sel: Seq<char>) -> Option<Seq<char>>;

/// The value of attribute `attr` on the first match of `sel` over the
/// whole document parsed from `doc`.
pub uninterp spec fn doc_first_attr(doc: Seq<char>, sel: Seq<char>, attr: Seq<char>) -> Option<
    Seq<char>,
>;

/// Relies on `scraper::Selector::parse`: whether a selector string parses
/// is a function of the string alone.
#[verifier::external_body]
pub(crate) fn selector_parses(sel: &str) -> (r: bool)
    ensures
        r == selector_ok(sel@),
{
    scraper::Selector::parse(sel).is_ok()
}

/// Relies on `scraper::Html::parse_document`, `scraper::Selector::parse`
/// and `scraper::Html::select`: parsing is deterministic and `select`
/// yields every matching element.
#[verifier::external_body]
pub(crate) fn count_matches(doc: &str, sel: &str) -> (r: usize)
    requires
        selector_ok(sel@),
    ensures
        r == match_count(doc@, sel@),
{
    let document = scraper::Html::parse_document(doc);
    let selector = scraper::Selector::parse(sel).ok().unwrap();
    document.select(&selector).count()
}

/// Relies on `scraper::Html::parse_document`, `scraper::Selector::parse`,
/// `scraper::Html::select`, `scraper::ElementRef::select` and
/// `scraper::ElementRef::text`: all deterministic in the markup and
/// selector strings.
#[verifier::external_body]
pub(crate) fn nth_first_text(doc: &str, container: &str, idx: usize, sel: &str) -> (r: Option<
    String,
>)
    requires
        selector_ok(container@),
        selector_ok(sel@),
        idx < match_count(doc@, container@),
    ensures
        r.deep_view() == elem_first_text(doc@, container@, idx as int, sel@),
{
    let document = scraper::Html::parse_document(doc);
    let outer = scraper::Selector::parse(container).ok().unwrap();
    let inner = scraper::Selector::parse(sel).ok().unwrap();
    let element = document.select(&outer).nth(idx).unwrap();
    element.select(&inner).next().map(|e| e.text().collect::<String>())
}

/// Relies on `scraper::Html::parse_document`, `scraper::Selector::parse`,
/// `scraper::Html::select`, `scraper::ElementRef::select` and
/// `scraper::ElementRef::attr`: all deterministic in their string inputs.
#[verifier::external_body]
pub(crate) fn nth_first_attr(doc: &str, container: &str, idx: usize, sel: &str, attr: &str) -> (r:
    Option<String>)
    requires
        selector_ok(container@),
        selector_ok(sel@),
        idx < match_count(doc@, container@),
    ensures
        r.deep_view() == elem_first_attr(doc@, container@, idx as int, sel@, attr@),
{
    let document = scraper::Html::parse_document(doc);
    let outer = scraper::Selector::parse(container).ok().unwrap();
    let inner = scraper::Selector::parse(sel).ok().unwrap();
    let element = document.select(&outer).nth(idx).unwrap();
    element.select(&inner).next().and_then(|e| e.attr(attr)).map(|s| s.to_string())
}

/// Relies on `scraper::Html::parse_document`, `scraper::Selector::parse`,
/// `scraper::Html::select`, `scraper::ElementRef::select` and
/// `scraper::ElementRef::text`: `select` yields the matches in document
/// order.
#[verifier::external_body]
pub(crate) fn nth_all_texts(doc: &str, container: &str, idx: usize, sel: &str) -> (r: Vec<String>)
    requires
        selector_ok(container@),
        selector_ok(sel@),
        idx < match_count(doc@, container@),
    ensures
        r.deep_view() == elem_all_texts(doc@, container@, idx as int, sel@),
{
    let document = scraper::Html::parse_document(doc);
    let outer = scraper::Selector::parse(container).ok().unwrap();
    let inner = scraper::Selector::parse(sel).ok().unwrap();
    let element = document.select(&outer).nth(idx).unwrap();
    element.select(&inner).map(|e| e.text().collect::<String>()).collect()
}

/// Relies on `scraper::Html::parse_document`, `scraper::Html::root_element`,
/// `scraper::Selector::parse`, `scraper::ElementRef::select` and
/// `scraper::ElementRef::text`.
#[verifier::external_body]
pub(crate) fn root_text(doc: &str, sel: &str) -> (r: Option<String>)
    requires
        selector_ok(sel@),
    ensures
        r.deep_view() == root_first_text(doc@, sel@),
{
    let document = scraper::Html::parse_document(doc);
    let inner = scraper::Selector::parse(sel).ok().unwrap();
    let root = document.root_element();
    root.select(&inner).next().map(|e| e.text().collect::<String>())
}

/// Relies on `scraper::Html::parse_document`, `scraper::Html::root_element`,
/// `scraper::Selector::parse`, `scraper::ElementRef::select` and
/// `scraper::ElementRef::attr`.
#[verifier::external_body]
pub(crate) fn root_attr(doc: &str, sel: &str, attr: &str) -> (r: Option<String>)
    requires
        selector_ok(sel@),
    ensures
        r.deep_view() == root_first_attr(doc@, sel@, attr@),
{
    let document = scraper::Html::parse_document(doc);
    let inner = scraper::Selector::parse(sel).ok().unwrap();
    let root = document.root_element();
    root.select(&inner).next().and_then(|e| e.attr(attr)).map(|s| s.to_string())
}

/// Relies on `scraper::Html::parse_document`, `scraper::Html::root_element`,
/// `scraper::Selector::parse`, `scraper::ElementRef::select` and
/// `scraper::ElementRef::text`: `select` yields the matches in document
/// order.
#[verifier::external_body]
pub(crate) fn root_texts(doc: &str, sel: &str) -> (r: Vec<String>)
    requires
        selector_ok(sel@),
    ensures
        r.deep_view() == root_all_texts(doc@, sel@),
{
    let document = scraper::Html::parse_document(doc);
    let inner = scraper::Selector::parse(sel).ok().unwrap();
    let root = document.root_element();
    root.select(&inner).map(|e| e.text().collect::<String>()).collect()
}

/// Relies on `scraper::Html::parse_document`, `scraper::Selector::parse`,
/// `scraper::Html::select` and `scraper::ElementRef::text`.
#[verifier::external_body]
pub(crate) fn document_first_text(doc: &str, sel: &str) -> (r: Option<String>)
    requires
        selector_ok(sel@),
    ensures
        r.deep_view() == doc_first_text(doc@, sel@),
{
    let document = scraper::Html::parse_document(doc);
    let inner = scraper::Selector::parse(sel).ok().unwrap();
    document.select(&inner).next().map(|e| e.text().collect::<String>())
}

/// Relies on `scraper::Html::parse_document`, `scraper::Selector::parse`,
/// `scraper::Html::select` and `scraper::ElementRef::attr`.
#[verifier::external_body]
pub(crate) fn document_first_attr(doc: &str, sel: &str, attr: &str) -> (r: Option<String>)
    requires
        selector_ok(sel@),
    ensures
        r.deep_view() == doc_first_attr(doc@, sel@, attr@),
{
    let document = scraper::Html::parse_document(doc);
    let inner = scraper::Selector::parse(sel).ok().unwrap();
    document.select(&inner).next().and_then(|e| e.attr(attr)).map(|s| s.to_string())
}

/// Where an element scope points within its markup.
#[derive(Debug, Clone)]
pub enum ScopeTarget {
    /// The root element of the document.
    Root,
    /// The element at `index` among the matches of `container`, in
    /// document order.
    Nth { container: String, index: usize },
}

/// An element within a page, addressed by the page markup together with a
/// target: the document root, or a position among the matches of a
/// container selector.
#[derive(Debug, Clone)]
pub struct ElementScope {
    pub markup: String,
    pub target: ScopeTarget,
}

impl ElementScope {
    /// A scope is live when its target actually addresses an element: the
    /// root always does, and a container match does when the container
    /// selector parses and the index is below the match count.
    pub open spec fn wf(self) -> bool {
        match self.target {
            ScopeTarget::Root => true,
            ScopeTarget::Nth { container, index } => selector_ok(container@) && index
                < match_count(self.markup@, container@),
        }
    }

    /// The root scope of `markup`.
    pub fn document_root(markup: String) -> (r: Self)
        ensures
            r.markup == markup,
            r.target is Root,
            r.wf(),
    {
        Self { markup, target: ScopeTarget::Root }
    }

    /// The raw first-match text under this scope.
    pub open spec fn spec_first_text(self, sel: Seq<char>) -> Option<Seq<char>> {
        match self.target {
            ScopeTarget::Root => root_first_text(self.markup@, sel),
            ScopeTarget::Nth { container, index } => elem_first_text(
                self.markup@,
                container@,
                index as int,
                sel,
            ),
        }
    }

    /// The raw first-match attribute value under this scope.
    pub open spec fn spec_first_attr(self, sel: Seq<char>, attr: Seq<char>) -> Option<Seq<char>> {
        match self.target {
            ScopeTarget::Root => root_first_attr(self.markup@, sel, attr),
            ScopeTarget::Nth { container, index } => elem_first_attr(
                self.markup@,
                container@,
                index as int,
                sel,
                attr,
            ),
        }
    }

    /// The raw texts of every match under this scope, in document order.
    pub open spec fn spec_all_texts(self, sel: Seq<char>) -> Seq<Seq<char>> {
        match self.target {
            ScopeTarget::Root => root_all_texts(self.markup@, sel),
            ScopeTarget::Nth { container, index } => elem_all_texts(
                self.markup@,
                container@,
                index as int,
                sel,
            ),
        }
    }

    /// Whether the scope is live, checked at run time.
    pub fn wf_check(&self) -> (r: bool)
        ensures
            r == self.wf(),
    {
        match &self.target {
            ScopeTarget::Root => true,
            ScopeTarget::Nth { container, index } => {
                selector_parses(container.as_str()) && *index < count_matches(
                    self.markup.as_str(),
                    container.as_str(),
                )
            },
        }
    }

    /// The raw first-match text under a live scope.
    fn first_text(&self, sel: &str) -> (r: Option<String>)
        requires
            self.wf(),
            selector_ok(sel@),
        ensures
            r.deep_view() == self.spec_first_text(sel@),
    {
        match &self.target {
            ScopeTarget::Root => root_text(self.markup.as_str(), sel),
            ScopeTarget::Nth { container, index } => nth_first_text(
                self.markup.as_str(),
                container.as_str(),
                *index,
                sel,
            ),
        }
    }

    /// The raw first-match attribute value under a live scope.
    fn first_attr(&self, sel: &str, attr: &str) -> (r: Option<String>)
        requires
            self.wf(),
            selector_ok(sel@),
        ensures
            r.deep_view() == self.spec_first_attr(sel@, attr@),
    {
        match &self.target {
            ScopeTarget::Root => root_attr(self.markup.as_str(), sel, attr),
            ScopeTarget::Nth { container, index } => nth_first_attr(
                self.markup.as_str(),
                container.as_str(),
                *index,
                sel,
                attr,
            ),
        }
    }

    /// The raw texts of every match under a live scope.
    fn all_texts(&self, sel: &str) -> (r: Vec<String>)
        requires
            self.wf(),
            selector_ok(sel@),
        ensures
            r.deep_view() == self.spec_all_texts(sel@),
    {
        match &self.target {
            ScopeTarget::Root => root_texts(self.markup.as_str(), sel),
            ScopeTarget::Nth { container, index } => nth_all_texts(
                self.markup.as_str(),
                container.as_str(),
                *index,
                sel,
            ),
        }
    }
}

/// What text extraction yields for a scope and a field selector: nothing
/// when the scope is dead, the selector is empty (the "not configured"
/// sentinel) or invalid, or no match has text left after trimming; and
/// otherwise the trimmed text of the first match.
pub open spec fn text_value_spec(scope: ElementScope, sel: Seq<char>) -> Option<Seq<char>> {
    if !scope.wf() || sel.len() == 0 || !selector_ok(sel) {
        None
    } else {
        match scope.spec_first_text(sel) {
            Some(t) => if trim_spec(t).len() > 0 {
                Some(trim_spec(t))
            } else {
                None
            },
            None => None,
        }
    }
}

/// What attribute extraction yields: nothing when the scope is dead, the
/// selector is empty or invalid, no element matches, or the attribute is
/// absent; and otherwise the attribute value, untrimmed.
pub open spec fn attr_value_spec(scope: ElementScope, sel: Seq<char>, attr: Seq<char>) -> Option<
    Seq<char>,
> {
    if !scope.wf() || sel.len() == 0 || !selector_ok(sel) {
        None
    } else {
        scope.spec_first_attr(sel, attr)
    }
}

/// What multi-text extraction yields: the trimmed texts of every match,
/// in document order, with blank ones dropped; and the empty sequence
/// when the scope is dead or the selector is empty or invalid.
pub open spec fn multi_texts_spec(scope: ElementScope, sel: Seq<char>) -> Seq<Seq<char>> {
    if !scope.wf() || sel.len() == 0 || !selector_ok(sel) {
        Seq::empty()
    } else {
        scope.spec_all_texts(sel).map_values(|t: Seq<char>| trim_spec(t)).filter(
            |t: Seq<char>| t.len() > 0,
        )
    }
}

/// The closed set of profile fields a selector can be suggested for.
#[derive(Debug, Clone, Copy, PartialEq, Eq, Structural)]
pub enum FieldKind {
    Title,
    Price,
    Image,
    Link,
    Description,
    Container,
}

/// The field kind named by `s`, matched without regard to ASCII case;
/// `title` and `name` both name the title field.
pub open spec fn field_kind_of(s: Seq<char>) -> Option<FieldKind> {
    if seq_eq_ci(s, "title"@) || seq_eq_ci(s, "name"@) {
        Some(FieldKind::Title)
    } else if seq_eq_ci(s, "price"@) {
        Some(FieldKind::Price)
    } else if seq_eq_ci(s, "image"@) {
        Some(FieldKind::Image)
    } else if seq_eq_ci(s, "link"@) {
        Some(FieldKind::Link)
    } else if seq_eq_ci(s, "description"@) {
        Some(FieldKind::Description)
    } else if seq_eq_ci(s, "container"@) {
        Some(FieldKind::Container)
    } else {
        None
    }
}

/// The field kind named by `s`, without regard to ASCII case.
pub fn field_kind_from(s: &str) -> (r: Option<FieldKind>)
    ensures
        r == field_kind_of(s@),
{
    if str_eq_ci(s, "title") || str_eq_ci(s, "name") {
        Some(FieldKind::Title)
    } else if str_eq_ci(s, "price") {
        Some(FieldKind::Price)
    } else if str_eq_ci(s, "image") {
        Some(FieldKind::Image)
    } else if str_eq_ci(s, "link") {
        Some(FieldKind::Link)
    } else if str_eq_ci(s, "description") {
        Some(FieldKind::Description)
    } else if str_eq_ci(s, "container") {
        Some(FieldKind::Container)
    } else {
        None
    }
}

/// The fixed list of suggested selector patterns for each field kind.
pub open spec fn suggest_spec(kind: FieldKind) -> Seq<Seq<char>> {
    match kind {
        FieldKind::Title => seq![
            ".product-title"@,
            ".product-name"@,
            "h1"@,
            "h2"@,
            ".title"@,
            "[data-testid='product-title']"@,
        ],
        FieldKind::Price => seq![
            ".price"@,
            ".product-price"@,
            ".current-price"@,
            ".sale-price"@,
            "[data-testid='price']"@,
            ".price-current"@,
        ],
        FieldKind::Image => seq![
            ".product-image img"@,
            ".main-image img"@,
            "img.product-photo"@,
            "[data-testid='product-image'] img"@,
        ],
        FieldKind::Link => seq![
            "a"@,
            ".product-link"@,
            "a.product-title"@,
            "[data-testid='product-link']"@,
        ],
        FieldKind::Description => seq![
            ".product-description"@,
            ".description"@,
            ".product-summary"@,
            "[data-testid='description']"@,
        ],
        FieldKind::Container => seq![
            ".product-item"@,
            ".product-card"@,
            ".product"@,
            "[data-testid='product']"@,
            ".search-result"@,
        ],
    }
}

/// Applies CSS selector strings to parsed markup, field by field.
#[derive(Debug)]
pub struct SelectorHelper;

impl SelectorHelper {
    pub fn new() -> (r: Self) {
        Self
    }

    /// The trimmed text of the first element matching `selector_str`
    /// under `scope`.  An empty selector is the "field not configured"
    /// sentinel and yields nothing; an invalid selector is swallowed and
    /// yields nothing; text that is blank after trimming counts as not
    /// found.
    pub fn extract_text(&self, scope: &ElementScope, selector_str: &str) -> (r: Option<String>)
        ensures
            r.deep_view() == text_value_spec(*scope, selector_str@),
    {
        if selector_str.is_empty() {
            return None;
        }
        if !selector_parses(selector_str) {
            return None;
        }
        if !scope.wf_check() {
            return None;
        }
        match scope.first_text(selector_str) {
            Some(raw) => {
                let trimmed = trim_str(raw.as_str());
                if trimmed.as_str().is_empty() {
                    None
                } else {
                    Some(trimmed)
                }
            },
            None => None,
        }
    }

    /// The value of `attribute` on the first element matching
    /// `selector_str` under `scope`; empty and invalid selectors are
    /// treated as in [`Self::extract_text`].
    pub fn extract_attribute(
        &self,
        scope: &ElementScope,
        selector_str: &str,
        attribute: &str,
    ) -> (r: Option<String>)
        ensures
            r.deep_view() == attr_value_spec(*scope, selector_str@, attribute@),
    {
        if selector_str.is_empty() {
            return None;
        }
        if !selector_parses(selector_str) {
            return None;
        }
        if !scope.wf_check() {
            return None;
        }
        scope.first_attr(selector_str, attribute)
    }

    /// The trimmed texts of every element matching `selector_str` under
    /// `scope`, in document order, with blank ones dropped; empty and
    /// invalid selectors yield an empty list.
    #[verifier::loop_isolation(false)]
    pub fn extract_multiple_texts(&self, scope: &ElementScope, selector_str: &str) -> (r: Vec<
        String,
    >)
        ensures
            r.deep_view() == multi_texts_spec(*scope, selector_str@),
    {
        if selector_str.is_empty() {
            return Vec::new();
        }
        if !selector_parses(selector_str) {
            return Vec::new();
        }
        if !scope.wf_check() {
            return Vec::new();
        }
        let raw = scope.all_texts(selector_str);
        let ghost trim_fn = |t: Seq<char>| trim_spec(t);
        let ghost keep = |t: Seq<char>| t.len() > 0;
        let ghost all = raw.deep_view();
        let mut out: Vec<String> = Vec::new();
        proof {
            assert(all.take(0).map_values(trim_fn) =~= Seq::<Seq<char>>::empty());
            reveal(Seq::filter);
            assert(out.deep_view() =~= all.take(0).map_values(trim_fn).filter(keep));
        }
        let n = raw.len();
        let mut i: usize = 0;
        while i < n
            invariant
                i <= n,
                out.deep_view() == all.take(i as int).map_values(trim_fn).filter(keep),
            decreases n - i,
        {
            let ghost prev = out.deep_view();
            let trimmed = trim_str(raw[i].as_str());
            if !trimmed.as_str().is_empty() {
                out.push(trimmed);
                proof {
                    assert(out.deep_view() =~= prev.push(trim_spec(all[i as int])));
                }
            }
            proof {
                let mapped = all.take(i as int).map_values(trim_fn);
                mapped.lemma_filter_push(trim_spec(all[i as int]), keep);
                assert(mapped.push(trim_spec(all[i as int])) =~= all.take(i + 1).map_values(
                    trim_fn,
                ));
            }
            i += 1;
        }
        proof {
            assert(all.take(n as int) =~= all);
        }
        out
    }

    /// Whether `selector_str` is usable: non-empty and syntactically
    /// valid.
    pub fn validate_selector(&self, selector_str: &str) -> (r: bool)
        ensures
            r == (selector_str@.len() > 0 && selector_ok(selector_str@)),
    {
        if selector_str.is_empty() {
            return false;
        }
        selector_parses(selector_str)
    }

    /// The fixed list of suggested selector patterns for `kind`.
    pub fn suggestions_for(&self, kind: FieldKind) -> (r: Vec<String>)
        ensures
            r.deep_view() == suggest_spec(kind),
    {
        let mut v: Vec<String> = Vec::new();
        match kind {
            FieldKind::Title => {
                v.push(".product-title".to_owned());
                v.push(".product-name".to_owned());
                v.push("h1".to_owned());
                v.push("h2".to_owned());
                v.push(".title".to_owned());
                v.push("[data-testid='product-title']".to_owned());
            },
            FieldKind::Price => {
                v.push(".price".to_owned());
                v.push(".product-price".to_owned());
                v.push(".current-price".to_owned());
                v.push(".sale-price".to_owned());
                v.push("[data-testid='price']".to_owned());
                v.push(".price-current".to_owned());
            },
            FieldKind::Image => {
                v.push(".product-image img".to_owned());
                v.push(".main-image img".to_owned());
                v.push("img.product-photo".to_owned());
                v.push("[data-testid='product-image'] img".to_owned());
            },
            FieldKind::Link => {
                v.push("a".to_owned());
                v.push(".product-link".to_owned());
                v.push("a.product-title".to_owned());
                v.push("[data-testid='product-link']".to_owned());
            },
            FieldKind::Description => {
                v.push(".product-description".to_owned());
                v.push(".description".to_owned());
                v.push(".product-summary".to_owned());
                v.push("[data-testid='description']".to_owned());
            },
            FieldKind::Container => {
                v.push(".product-item".to_owned());
                v.push(".product-card".to_owned());
                v.push(".product".to_owned());
                v.push("[data-testid='product']".to_owned());
                v.push(".search-result".to_owned());
            },
        }
        proof {
            assert(v.deep_view() =~= suggest_spec(kind));
        }
        v
    }

    /// The suggested selector patterns for the field named by
    /// `element_type`, matched without regard to ASCII case; an unknown
    /// name yields an empty list.
    pub fn suggest_selectors(&self, element_type: &str) -> (r: Vec<String>)
        ensures
            r.deep_view() == match field_kind_of(element_type@) {
                Some(kind) => suggest_spec(kind),
                None => Seq::<Seq<char>>::empty(),
            },
    {
        match field_kind_from(element_type) {
            Some(kind) => self.suggestions_for(kind),
            None => {
                let v: Vec<String> = Vec::new();
                proof {
                    assert(v.deep_view() =~= Seq::<Seq<char>>::empty());
                }
                v
            },
        }
    }
}

} // verus!
