use store_scraper::StoreTab;

#[test]
fn fresh_store_tab_edits_an_empty_profile() {
    let tab = StoreTab::new();
    assert_eq!(tab.new_store.name, "");
    assert_eq!(tab.new_store.search_url_pattern, "{base_url}/search?q={query}");
    assert!(tab.selected_store.is_none());
    assert!(!tab.editing);
    assert_eq!(tab.test_url, "");
    assert_eq!(tab.selector_type, "container");
    assert!(!tab.show_suggestions);
}

#[test]
fn apply_suggestion_writes_the_selected_field() {
    let mut tab = StoreTab::new();
    tab.selector_type = "price".to_string();
    tab.apply_suggestion(".sale-price".to_string());
    assert_eq!(tab.new_store.price_selector, ".sale-price");
    assert_eq!(tab.new_store.product_container_selector, "");

    tab.selector_type = "description".to_string();
    tab.apply_suggestion(".desc".to_string());
    assert_eq!(tab.new_store.description_selector.as_deref(), Some(".desc"));
}

#[test]
fn apply_suggestion_with_unknown_field_changes_nothing() {
    let mut tab = StoreTab::new();
    tab.selector_type = "rating".to_string();
    tab.apply_suggestion(".stars".to_string());
    assert_eq!(tab.new_store.product_container_selector, "");
    assert_eq!(tab.new_store.name_selector, "");
    assert_eq!(tab.new_store.price_selector, "");
    assert_eq!(tab.new_store.image_selector, "");
    assert_eq!(tab.new_store.link_selector, "");
    assert!(tab.new_store.description_selector.is_none());
}

#[test]
fn apply_suggestion_matches_exactly_not_case_insensitively() {
    let mut tab = StoreTab::new();
    tab.selector_type = "Price".to_string();
    tab.apply_suggestion(".p".to_string());
    assert_eq!(tab.new_store.price_selector, "");
}
