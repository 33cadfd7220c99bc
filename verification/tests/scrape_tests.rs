use store_scraper::FetchOutcome;
use store_scraper::ScrapeError;
use store_scraper::StoreConfig;
use store_scraper::WebScraper;

fn listing_config() -> StoreConfig {
    let mut cfg = StoreConfig::new("Shop".to_string(), "https://shop.example".to_string());
    cfg.product_container_selector = ".item".to_string();
    cfg.name_selector = ".n".to_string();
    cfg.price_selector = ".p".to_string();
    cfg.link_selector = "a".to_string();
    cfg.image_selector = "img".to_string();
    cfg
}

fn ok_outcome(markup: &str) -> FetchOutcome {
    FetchOutcome::Response { status: 200, body: Some(markup.to_string()) }
}

#[test]
fn incomplete_elements_are_dropped_whole() {
    let markup = "<html><body>\
        <div class=\"item\"><span class=\"n\">Widget</span><span class=\"p\">9.99</span></div>\
        <div class=\"item\"><span class=\"n\">No price here</span></div>\
        </body></html>";
    let scraper = WebScraper::new();
    let products = scraper
        .scrape_products(&ok_outcome(markup), &listing_config(), "https://shop.example/cat")
        .expect("scrape succeeds");
    assert_eq!(products.len(), 1);
    assert_eq!(products[0].name, "Widget");
    assert_eq!(products[0].price, "9.99");
    assert_eq!(products[0].store_name, "Shop");
}

#[test]
fn no_container_match_yields_empty_list() {
    let markup = "<html><body><p>nothing to see</p></body></html>";
    let scraper = WebScraper::new();
    let products = scraper
        .scrape_products(&ok_outcome(markup), &listing_config(), "https://shop.example")
        .expect("scrape succeeds");
    assert!(products.is_empty());
}

#[test]
fn invalid_container_selector_is_a_hard_error() {
    let mut cfg = listing_config();
    cfg.product_container_selector = "div >".to_string();
    let scraper = WebScraper::new();
    let result = scraper.scrape_products(
        &ok_outcome("<html><body></body></html>"),
        &cfg,
        "https://shop.example",
    );
    match result {
        Err(ScrapeError::Selector(sel)) => assert_eq!(sel, "div >"),
        other => panic!("expected a selector error, got {:?}", other),
    }
}

#[test]
fn transport_failure_is_a_network_error() {
    let scraper = WebScraper::new();
    let result = scraper.scrape_products(
        &FetchOutcome::TransportFailed,
        &listing_config(),
        "https://shop.example",
    );
    assert!(matches!(result, Err(ScrapeError::Network)));
}

#[test]
fn non_success_status_is_an_http_error() {
    let scraper = WebScraper::new();
    let outcome = FetchOutcome::Response { status: 404, body: Some(String::new()) };
    let result = scraper.scrape_products(&outcome, &listing_config(), "https://shop.example");
    match result {
        Err(ScrapeError::HttpStatus(code)) => assert_eq!(code, 404),
        other => panic!("expected an HTTP status error, got {:?}", other),
    }
}

#[test]
fn undecodable_body_is_a_body_read_error() {
    let scraper = WebScraper::new();
    let outcome = FetchOutcome::Response { status: 200, body: None };
    let result = scraper.scrape_products(&outcome, &listing_config(), "https://shop.example");
    assert!(matches!(result, Err(ScrapeError::BodyRead)));
}

#[test]
fn record_urls_are_resolved_against_page_url() {
    let markup = "<html><body>\
        <div class=\"item\"><span class=\"n\">A</span><span class=\"p\">1</span>\
        <a href=\"/p/1\">x</a><img src=\"//cdn.example/a.png\"></div>\
        <div class=\"item\"><span class=\"n\">B</span><span class=\"p\">2</span></div>\
        </body></html>";
    let scraper = WebScraper::new();
    let products = scraper
        .scrape_products(&ok_outcome(markup), &listing_config(), "https://shop.example/cat")
        .expect("scrape succeeds");
    assert_eq!(products.len(), 2);
    assert_eq!(products[0].url, "https://shop.example/p/1");
    assert_eq!(products[0].image_url, "https://cdn.example/a.png");
    // The second element has no link and no image: the URL falls back to
    // the page URL and the image stays empty.
    assert_eq!(products[1].url, "https://shop.example/cat");
    assert_eq!(products[1].image_url, "");
}

#[test]
fn description_is_extracted_only_when_configured() {
    let markup = "<html><body>\
        <div class=\"item\"><span class=\"n\">A</span><span class=\"p\">1</span>\
        <span class=\"d\">  nice  </span></div>\
        </body></html>";
    let scraper = WebScraper::new();

    let plain = scraper
        .scrape_products(&ok_outcome(markup), &listing_config(), "https://shop.example")
        .expect("scrape succeeds");
    assert!(plain[0].description.is_none());

    let mut with_desc = listing_config();
    with_desc.description_selector = Some(".d".to_string());
    let described = scraper
        .scrape_products(&ok_outcome(markup), &with_desc, "https://shop.example")
        .expect("scrape succeeds");
    assert_eq!(described[0].description.as_deref(), Some("nice"));
}

#[test]
fn single_product_scrape_uses_the_root_scope() {
    let markup = "<html><body>\
        <span class=\"n\">Only one</span><span class=\"p\">5.00</span>\
        </body></html>";
    let scraper = WebScraper::new();
    let product = scraper
        .scrape_single_product(&ok_outcome(markup), &listing_config(), "https://shop.example/p")
        .expect("scrape succeeds")
        .expect("a product is found");
    assert_eq!(product.name, "Only one");
    assert_eq!(product.price, "5.00");
    assert_eq!(product.url, "https://shop.example/p");
}

#[test]
fn single_product_scrape_yields_nothing_when_fields_missing() {
    let markup = "<html><body><span class=\"n\">Name only</span></body></html>";
    let scraper = WebScraper::new();
    let result = scraper
        .scrape_single_product(&ok_outcome(markup), &listing_config(), "https://shop.example")
        .expect("scrape succeeds");
    assert!(result.is_none());
}

#[test]
fn search_products_resolves_against_the_search_url() {
    let markup = "<html><body>\
        <div class=\"item\"><span class=\"n\">A</span><span class=\"p\">1</span></div>\
        </body></html>";
    let scraper = WebScraper::new();
    let products = scraper
        .search_products("shoes", &ok_outcome(markup), &listing_config())
        .expect("search succeeds");
    assert_eq!(products.len(), 1);
    // No link in the markup: the record URL falls back to the search URL
    // built from the profile's pattern.
    assert_eq!(products[0].url, "https://shop.example/search?q=shoes");
}

#[test]
fn error_messages_name_the_error() {
    assert_eq!(
        ScrapeError::Network.message(),
        "network error: the page could not be fetched"
    );
    assert_eq!(ScrapeError::HttpStatus(503).message(), "HTTP error: 503");
    assert_eq!(ScrapeError::BodyRead.message(), "error reading the response body");
    assert_eq!(
        ScrapeError::Selector("[x".to_string()).message(),
        "invalid container selector: [x"
    );
}
