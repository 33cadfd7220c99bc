use store_scraper::FieldKind;
use store_scraper::StoreConfig;
use store_scraper::StoreManager;

fn filled_config(name: &str) -> StoreConfig {
    let mut cfg = StoreConfig::new(name.to_string(), "https://x.com".to_string());
    cfg.product_container_selector = ".item".to_string();
    cfg.name_selector = ".n".to_string();
    cfg.price_selector = ".p".to_string();
    cfg
}

#[test]
fn new_config_uses_default_pattern() {
    let cfg = StoreConfig::new("Shop".to_string(), "https://shop.example".to_string());
    assert_eq!(cfg.name, "Shop");
    assert_eq!(cfg.base_url, "https://shop.example");
    assert_eq!(cfg.search_url_pattern, "{base_url}/search?q={query}");
    assert!(cfg.enabled);
    assert!(cfg.description_selector.is_none());
}

#[test]
fn build_search_url_substitutes_placeholders() {
    let cfg = StoreConfig::new("X".to_string(), "https://x.com".to_string());
    assert_eq!(cfg.build_search_url("shoes"), "https://x.com/search?q=shoes");
}

#[test]
fn build_search_url_substitutes_every_occurrence() {
    let mut cfg = StoreConfig::new("X".to_string(), "https://x.com".to_string());
    cfg.search_url_pattern = "{base_url}/find?q={query}&again={query}".to_string();
    assert_eq!(cfg.build_search_url("a b"), "https://x.com/find?q=a b&again=a b");
}

#[test]
fn is_valid_requires_five_fields() {
    let cfg = filled_config("Shop");
    assert!(cfg.is_valid());

    let mut missing_name = cfg.clone();
    missing_name.name = String::new();
    assert!(!missing_name.is_valid());

    let mut missing_base = cfg.clone();
    missing_base.base_url = String::new();
    assert!(!missing_base.is_valid());

    let mut missing_container = cfg.clone();
    missing_container.product_container_selector = String::new();
    assert!(!missing_container.is_valid());

    let mut missing_name_sel = cfg.clone();
    missing_name_sel.name_selector = String::new();
    assert!(!missing_name_sel.is_valid());

    let mut missing_price_sel = cfg.clone();
    missing_price_sel.price_selector = String::new();
    assert!(!missing_price_sel.is_valid());

    let mut no_image = cfg.clone();
    no_image.image_selector = String::new();
    assert!(no_image.is_valid());
}

#[test]
fn set_selector_writes_the_named_field() {
    let mut cfg = StoreConfig::new("X".to_string(), "https://x.com".to_string());
    cfg.set_selector(FieldKind::Container, ".product".to_string());
    cfg.set_selector(FieldKind::Title, ".t".to_string());
    cfg.set_selector(FieldKind::Price, ".pr".to_string());
    cfg.set_selector(FieldKind::Image, "img".to_string());
    cfg.set_selector(FieldKind::Link, "a".to_string());
    cfg.set_selector(FieldKind::Description, ".d".to_string());
    assert_eq!(cfg.product_container_selector, ".product");
    assert_eq!(cfg.name_selector, ".t");
    assert_eq!(cfg.price_selector, ".pr");
    assert_eq!(cfg.image_selector, "img");
    assert_eq!(cfg.link_selector, "a");
    assert_eq!(cfg.description_selector.as_deref(), Some(".d"));
}

#[test]
fn manager_add_and_remove() {
    let mut manager = StoreManager::new();
    assert_eq!(manager.stores.len(), 0);
    manager.add_store(filled_config("A"));
    manager.add_store(filled_config("B"));
    assert_eq!(manager.stores.len(), 2);

    let removed = manager.remove_store(0).expect("index 0 exists");
    assert_eq!(removed.name, "A");
    assert_eq!(manager.stores.len(), 1);
    assert_eq!(manager.stores[0].name, "B");

    assert!(manager.remove_store(5).is_none());
    assert_eq!(manager.stores.len(), 1);
}

#[test]
fn manager_update_in_range_only() {
    let mut manager = StoreManager::new();
    manager.add_store(filled_config("A"));
    assert!(manager.update_store(0, filled_config("New")));
    assert_eq!(manager.stores[0].name, "New");
    assert!(!manager.update_store(3, filled_config("Nope")));
    assert_eq!(manager.stores.len(), 1);
    assert_eq!(manager.stores[0].name, "New");
}

#[test]
fn enabled_stores_keep_list_order() {
    let mut manager = StoreManager::new();
    let mut a = filled_config("A");
    a.enabled = true;
    let mut b = filled_config("B");
    b.enabled = false;
    let mut c = filled_config("C");
    c.enabled = true;
    manager.add_store(a);
    manager.add_store(b);
    manager.add_store(c);
    let enabled = manager.get_enabled_stores();
    assert_eq!(enabled.len(), 2);
    assert_eq!(enabled[0].name, "A");
    assert_eq!(enabled[1].name, "C");
}

#[test]
fn default_manager_holds_sample_store() {
    let manager = StoreManager::default();
    assert_eq!(manager.stores.len(), 1);
    let sample = &manager.stores[0];
    assert_eq!(sample.name, "Ejemplo Store");
    assert_eq!(sample.base_url, "https://ejemplo.com");
    assert_eq!(sample.product_container_selector, ".product-item");
    assert_eq!(sample.name_selector, ".product-name");
    assert_eq!(sample.price_selector, ".price");
    assert_eq!(sample.image_selector, ".product-image img");
    assert_eq!(sample.link_selector, "a");
    assert_eq!(sample.description_selector.as_deref(), Some(".description"));
    assert!(sample.enabled);
}
