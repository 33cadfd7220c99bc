use store_scraper::DataSelectors;
use store_scraper::ScrapingProfile;
use store_scraper::SummaryError;
use store_scraper::summary::summarize_page;

const QUOTE_PAGE: &str = "<html><body>\
    <div class=\"quote\"><span class=\"text\">  To be or not to be  </span>\
    <small class=\"author\">Shakespeare</small></div>\
    <img class=\"photo\" src=\"/img/q.png\">\
    </body></html>";

#[test]
fn summary_extracts_and_trims_fields() {
    let selectors = DataSelectors {
        product_name: "div.quote span.text".to_string(),
        product_price: "div.quote small.author".to_string(),
        product_image_url: "img.photo".to_string(),
    };
    let data = summarize_page(QUOTE_PAGE, &selectors, "http://quotes.toscrape.com/")
        .expect("summary succeeds");
    assert_eq!(data.product_name, "To be or not to be");
    assert_eq!(data.product_price, "Shakespeare");
    assert_eq!(data.product_image_url, "/img/q.png");
    assert_eq!(data.scraped_url, "http://quotes.toscrape.com/");
}

#[test]
fn summary_fields_fall_back_when_unmatched() {
    let selectors = DataSelectors {
        product_name: ".absent".to_string(),
        product_price: ".also-absent".to_string(),
        product_image_url: "img.absent".to_string(),
    };
    let data = summarize_page(QUOTE_PAGE, &selectors, "http://x.example/").expect("succeeds");
    assert_eq!(data.product_name, "Product name not found. (Check selector)");
    assert_eq!(data.product_price, "Product price not found. (Check selector)");
    assert_eq!(data.product_image_url, "Image URL not found.");
}

#[test]
fn summary_without_image_selector() {
    let selectors = DataSelectors {
        product_name: "span.text".to_string(),
        product_price: "small.author".to_string(),
        product_image_url: String::new(),
    };
    let data = summarize_page(QUOTE_PAGE, &selectors, "http://x.example/").expect("succeeds");
    assert_eq!(data.product_image_url, "No image selector configured.");
}

#[test]
fn summary_rejects_unusable_selectors() {
    let bad_name = DataSelectors {
        product_name: "div >".to_string(),
        product_price: ".p".to_string(),
        product_image_url: String::new(),
    };
    match summarize_page(QUOTE_PAGE, &bad_name, "http://x.example/") {
        Err(SummaryError::NameSelector(s)) => assert_eq!(s, "div >"),
        other => panic!("expected a name selector error, got {:?}", other),
    }

    let bad_price = DataSelectors {
        product_name: ".n".to_string(),
        product_price: String::new(),
        product_image_url: String::new(),
    };
    match summarize_page(QUOTE_PAGE, &bad_price, "http://x.example/") {
        Err(SummaryError::PriceSelector(s)) => assert_eq!(s, ""),
        other => panic!("expected a price selector error, got {:?}", other),
    }

    let bad_image = DataSelectors {
        product_name: ".n".to_string(),
        product_price: ".p".to_string(),
        product_image_url: "img >".to_string(),
    };
    match summarize_page(QUOTE_PAGE, &bad_image, "http://x.example/") {
        Err(SummaryError::ImageSelector(s)) => assert_eq!(s, "img >"),
        other => panic!("expected an image selector error, got {:?}", other),
    }
}

#[test]
fn default_profile_targets_the_quotes_site() {
    let profile = ScrapingProfile::default();
    assert_eq!(profile.id, "quotes-toscrape-com");
    assert_eq!(profile.name, "Quotes to Scrape");
    assert_eq!(profile.base_url, "http://quotes.toscrape.com/");
    assert_eq!(profile.selectors.product_name, "div.quote span.text");
    assert_eq!(profile.selectors.product_price, "div.quote small.author");
    assert_eq!(profile.selectors.product_image_url, "");
}
