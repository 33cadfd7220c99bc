use store_scraper::ElementScope;
use store_scraper::ScopeTarget;
use store_scraper::SelectorHelper;

const PAGE: &str = "<html><body>\
<div class=\"item\"><span class=\"n\">  First thing  </span><span class=\"p\">1.00</span>\
<a href=\"/one\">go</a><ul><li>alpha</li><li>   </li><li>beta</li></ul></div>\
<div class=\"item\"><span class=\"n\"></span><span class=\"p\">2.00</span></div>\
</body></html>";

fn root_scope() -> ElementScope {
    ElementScope::document_root(PAGE.to_string())
}

fn item_scope(index: usize) -> ElementScope {
    ElementScope {
        markup: PAGE.to_string(),
        target: ScopeTarget::Nth { container: ".item".to_string(), index },
    }
}

#[test]
fn extract_text_trims_first_match() {
    let helper = SelectorHelper::new();
    let text = helper.extract_text(&root_scope(), ".n");
    assert_eq!(text.as_deref(), Some("First thing"));
}

#[test]
fn extract_text_empty_selector_is_not_configured() {
    let helper = SelectorHelper::new();
    assert!(helper.extract_text(&root_scope(), "").is_none());
}

#[test]
fn extract_text_invalid_selector_is_swallowed() {
    let helper = SelectorHelper::new();
    assert!(helper.extract_text(&root_scope(), "div >").is_none());
}

#[test]
fn extract_text_blank_after_trim_is_missing() {
    let helper = SelectorHelper::new();
    assert!(helper.extract_text(&item_scope(1), ".n").is_none());
}

#[test]
fn extract_text_no_match_is_missing() {
    let helper = SelectorHelper::new();
    assert!(helper.extract_text(&root_scope(), ".absent").is_none());
}

#[test]
fn extract_text_scopes_to_the_indexed_container() {
    let helper = SelectorHelper::new();
    assert_eq!(helper.extract_text(&item_scope(0), ".p").as_deref(), Some("1.00"));
    assert_eq!(helper.extract_text(&item_scope(1), ".p").as_deref(), Some("2.00"));
}

#[test]
fn extract_attribute_reads_named_attribute() {
    let helper = SelectorHelper::new();
    assert_eq!(helper.extract_attribute(&root_scope(), "a", "href").as_deref(), Some("/one"));
    assert!(helper.extract_attribute(&root_scope(), "a", "title").is_none());
    assert!(helper.extract_attribute(&root_scope(), "", "href").is_none());
    assert!(helper.extract_attribute(&root_scope(), "div >", "href").is_none());
}

#[test]
fn extract_multiple_texts_drops_blank_entries() {
    let helper = SelectorHelper::new();
    let texts = helper.extract_multiple_texts(&root_scope(), "li");
    assert_eq!(texts, vec!["alpha".to_string(), "beta".to_string()]);
    assert!(helper.extract_multiple_texts(&root_scope(), "").is_empty());
    assert!(helper.extract_multiple_texts(&root_scope(), "div >").is_empty());
}

#[test]
fn extract_multiple_texts_scopes_to_the_indexed_container() {
    let helper = SelectorHelper::new();
    let texts = helper.extract_multiple_texts(&item_scope(0), "li");
    assert_eq!(texts, vec!["alpha".to_string(), "beta".to_string()]);
    assert!(helper.extract_multiple_texts(&item_scope(1), "li").is_empty());
}

#[test]
fn validate_selector_rejects_empty_and_invalid() {
    let helper = SelectorHelper::new();
    assert!(helper.validate_selector(".item"));
    assert!(helper.validate_selector("div > a.link"));
    assert!(!helper.validate_selector(""));
    assert!(!helper.validate_selector("div >"));
}

#[test]
fn suggest_selectors_covers_each_kind() {
    let helper = SelectorHelper::new();
    assert_eq!(
        helper.suggest_selectors("title"),
        vec![
            ".product-title".to_string(),
            ".product-name".to_string(),
            "h1".to_string(),
            "h2".to_string(),
            ".title".to_string(),
            "[data-testid='product-title']".to_string(),
        ]
    );
    assert_eq!(helper.suggest_selectors("name"), helper.suggest_selectors("title"));
    assert_eq!(helper.suggest_selectors("price")[0], ".price");
    assert_eq!(helper.suggest_selectors("image")[0], ".product-image img");
    assert_eq!(helper.suggest_selectors("link")[0], "a");
    assert_eq!(helper.suggest_selectors("description")[0], ".product-description");
    assert_eq!(helper.suggest_selectors("container")[0], ".product-item");
}

#[test]
fn suggest_selectors_ignores_ascii_case() {
    let helper = SelectorHelper::new();
    assert_eq!(helper.suggest_selectors("TITLE"), helper.suggest_selectors("title"));
    assert_eq!(helper.suggest_selectors("Price"), helper.suggest_selectors("price"));
}

#[test]
fn suggest_selectors_unknown_kind_is_empty() {
    let helper = SelectorHelper::new();
    assert!(helper.suggest_selectors("rating").is_empty());
    assert!(helper.suggest_selectors("").is_empty());
}
