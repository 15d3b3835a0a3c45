use dealfeed::deal::{deal_from_card, first_srcset_token_str, normalize_image, normalize_link, RawCard};
use dealfeed::price::price_cents_from_text;
use dealfeed::registry::{VendorConfig, VendorSelectors};
use dealfeed::text::trim_str;

fn test_config() -> VendorConfig {
    VendorConfig {
        name: "TestVendor",
        url: "/test",
        backend: "test_backend",
        base_url: "https://example.com",
        selectors: VendorSelectors {
            card: "div.product",
            title: "h2.title",
            price: "span.price",
            image: "img.product-img",
            link: "a.product-link",
        },
    }
}

#[test]
fn price_cents_exact_values() {
    assert_eq!(price_cents_from_text("$19.99"), 1999);
    assert_eq!(price_cents_from_text("$1,234.56"), 123456);
    assert_eq!(price_cents_from_text("USD 99.99"), 9999);
    assert_eq!(price_cents_from_text("49"), 4900);
    assert_eq!(price_cents_from_text("From $29.99"), 2999);
    assert_eq!(price_cents_from_text("  $15.00  "), 1500);
}

#[test]
fn price_cents_edge_cases() {
    // No digits at all: unreadable, hence zero.
    assert_eq!(price_cents_from_text(""), 0);
    assert_eq!(price_cents_from_text("."), 0);
    assert_eq!(price_cents_from_text("Contact for price"), 0);
    // Two dots survive cleaning: unreadable, hence zero.
    assert_eq!(price_cents_from_text("1.2.3"), 0);
    // A trailing or leading dot still reads.
    assert_eq!(price_cents_from_text("5."), 500);
    assert_eq!(price_cents_from_text(".5"), 50);
    // Fraction digits beyond the second are dropped.
    assert_eq!(price_cents_from_text("19.999"), 1999);
    // A value too large to count in cents saturates.
    assert_eq!(price_cents_from_text("99999999999999999999999999"), u64::MAX);
}

#[test]
fn trim_removes_surrounding_whitespace() {
    assert_eq!(trim_str("  Test Product \n\t"), "Test Product");
    assert_eq!(trim_str("inner  space kept"), "inner  space kept");
    assert_eq!(trim_str("   "), "");
    assert_eq!(trim_str(""), "");
    // The no-break space counts as whitespace, as str::trim counts it.
    assert_eq!(trim_str("\u{a0}x\u{a0}"), "x");
}

#[test]
fn link_prepends_base_only_when_relative() {
    assert_eq!(
        normalize_link(Some("/products/test-item"), "https://example.com"),
        "https://example.com/products/test-item"
    );
    assert_eq!(
        normalize_link(Some("https://other.com/x"), "https://example.com"),
        "https://other.com/x"
    );
    assert_eq!(normalize_link(None, "https://example.com"), "https://example.com#");
}

#[test]
fn link_normalization_is_idempotent_on_absolute_urls() {
    let once = normalize_link(Some("/p"), "https://example.com");
    let twice = normalize_link(Some(once.as_str()), "https://example.com");
    assert_eq!(once, twice);
    let absolute = normalize_link(Some("https://other.com/x"), "https://example.com");
    assert_eq!(absolute, "https://other.com/x");
}

#[test]
fn image_priority_and_placeholder() {
    assert_eq!(
        normalize_image(Some("https://a/img.jpg"), Some("https://b/img.jpg"), None),
        "https://a/img.jpg"
    );
    assert_eq!(
        normalize_image(None, Some("https://example.com/lazy.jpg"), None),
        "https://example.com/lazy.jpg"
    );
    assert_eq!(
        normalize_image(None, None, Some("https://c/img.jpg 1x, https://c/img2.jpg 2x")),
        "https://c/img.jpg"
    );
    assert_eq!(
        normalize_image(None, None, None),
        "https://via.placeholder.com/300x300?text=No+Image"
    );
}

#[test]
fn protocol_relative_image_gets_https() {
    assert_eq!(normalize_image(Some("//host/path"), None, None), "https://host/path");
    assert_eq!(
        normalize_image(None, Some("//cdn.example.com/i.jpg"), None),
        "https://cdn.example.com/i.jpg"
    );
}

#[test]
fn srcset_takes_first_url_token() {
    assert_eq!(first_srcset_token_str("a.jpg 1x, b.jpg 2x"), "a.jpg");
    assert_eq!(first_srcset_token_str("a.jpg,b.jpg"), "a.jpg");
    assert_eq!(first_srcset_token_str("solo.jpg"), "solo.jpg");
    assert_eq!(first_srcset_token_str(""), "");
}

#[test]
fn deal_from_card_applies_all_defaults() {
    let config = test_config();
    let card = RawCard {
        title: None,
        price: Some("$10.00".to_string()),
        link: None,
        image_src: None,
        image_data_src: None,
        image_srcset: None,
    };
    let deal = deal_from_card(&card, &config).expect("positive price must yield an item");
    assert_eq!(deal.vendor, "TestVendor");
    assert_eq!(deal.title, "Unknown");
    assert_eq!(deal.price_str, "$10.00");
    assert_eq!(deal.price_cents, 1000);
    assert_eq!(deal.link, "https://example.com#");
    assert_eq!(deal.image, "https://via.placeholder.com/300x300?text=No+Image");
}

#[test]
fn deal_from_card_drops_nonpositive_prices() {
    let config = test_config();
    let zero = RawCard {
        title: Some("Free".to_string()),
        price: Some("$0.00".to_string()),
        link: None,
        image_src: None,
        image_data_src: None,
        image_srcset: None,
    };
    assert!(deal_from_card(&zero, &config).is_none());
    let missing = RawCard {
        title: Some("No price".to_string()),
        price: None,
        link: None,
        image_src: None,
        image_data_src: None,
        image_srcset: None,
    };
    assert!(deal_from_card(&missing, &config).is_none());
}
