use store_scraper::AppConfig;
use store_scraper::FileManager;
use store_scraper::Product;

#[test]
fn csv_export_quotes_and_escapes() {
    let manager = FileManager::new();
    let products = vec![
        Product::new(
            "Plain".to_string(),
            "9.99".to_string(),
            "https://x.com/p/1".to_string(),
            "".to_string(),
            "Shop".to_string(),
        ),
        Product::new(
            "Has \"quotes\"".to_string(),
            "1,00".to_string(),
            "https://x.com/p/2".to_string(),
            "".to_string(),
            "Shop".to_string(),
        )
        .with_description("say \"hi\"".to_string()),
    ];
    let csv = manager.export_csv(&products);
    let expected = "Name,Price,URL,Store,Description\n\
        \"Plain\",\"9.99\",\"https://x.com/p/1\",\"Shop\",\"\"\n\
        \"Has \"\"quotes\"\"\",\"1,00\",\"https://x.com/p/2\",\"Shop\",\"say \"\"hi\"\"\"\n";
    assert_eq!(csv, expected);
}

#[test]
fn csv_export_of_nothing_is_just_the_header() {
    let manager = FileManager::new();
    let csv = manager.export_csv(&Vec::new());
    assert_eq!(csv, "Name,Price,URL,Store,Description\n");
}

#[test]
fn default_app_config_values() {
    let config = AppConfig::default();
    assert_eq!(config.max_products_per_store, 50);
    assert_eq!(config.request_delay_ms, 1000);
    assert_eq!(
        config.user_agent,
        "Mozilla/5.0 (Windows NT 10.0; Win64; x64) AppleWebKit/537.36"
    );
    assert!(config.auto_save_results);
    assert_eq!(config.theme, "dark");
}

#[test]
fn product_builder_sets_description() {
    let product = Product::new(
        "N".to_string(),
        "P".to_string(),
        "U".to_string(),
        "I".to_string(),
        "S".to_string(),
    );
    assert!(product.description.is_none());
    let described = product.with_description("D".to_string());
    assert_eq!(described.name, "N");
    assert_eq!(described.price, "P");
    assert_eq!(described.url, "U");
    assert_eq!(described.image_url, "I");
    assert_eq!(described.store_name, "S");
    assert_eq!(described.description.as_deref(), Some("D"));
}
