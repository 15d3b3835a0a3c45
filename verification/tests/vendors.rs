use dealfeed::extract::{compile_selectors, parse_vendor_response};
use dealfeed::registry::{get_vendors, VendorConfig, VendorSelectors};

fn create_test_vendor_config() -> VendorConfig {
    VendorConfig {
        name: "TestVendor",
        url: "/test",
        backend: "test_backend",
        base_url: "https://example.com",
        selectors: VendorSelectors {
            card: "div.product",
            title: "h2.title",
            price: "span.price",
            image: "img.product-img",
            link: "a.product-link",
        },
    }
}

#[test]
fn test_parse_basic_product() {
    let html = r#"
        <div class="product">
            <h2 class="title">Test Product</h2>
            <span class="price">$19.99</span>
            <a class="product-link" href="/product/123"></a>
            <img class="product-img" src="https://example.com/image.jpg" />
        </div>
    "#;

    let config = create_test_vendor_config();
    let deals = parse_vendor_response(html, &config);

    assert_eq!(deals.len(), 1);
    assert_eq!(deals[0].vendor, "TestVendor");
    assert_eq!(deals[0].title, "Test Product");
    assert_eq!(deals[0].price_str, "$19.99");
    assert_eq!(deals[0].price_cents, 1999);
    assert_eq!(deals[0].link, "https://example.com/product/123");
    assert_eq!(deals[0].image, "https://example.com/image.jpg");
}

#[test]
fn test_parse_multiple_products() {
    let html = r#"
        <div class="product">
            <h2 class="title">Product 1</h2>
            <span class="price">$10.00</span>
            <a class="product-link" href="/p1"></a>
            <img class="product-img" src="/img1.jpg" />
        </div>
        <div class="product">
            <h2 class="title">Product 2</h2>
            <span class="price">$25.50</span>
            <a class="product-link" href="/p2"></a>
            <img class="product-img" src="/img2.jpg" />
        </div>
    "#;

    let config = create_test_vendor_config();
    let deals = parse_vendor_response(html, &config);

    assert_eq!(deals.len(), 2);
    assert_eq!(deals[0].title, "Product 1");
    assert_eq!(deals[0].price_cents, 1000);
    assert_eq!(deals[1].title, "Product 2");
    assert_eq!(deals[1].price_cents, 2550);
}

#[test]
fn test_price_normalization() {
    let test_cases = vec![
        ("$19.99", 1999u64),
        ("$1,234.56", 123456),
        ("USD 99.99", 9999),
        ("49", 4900),
        ("From $29.99", 2999),
        ("  $15.00  ", 1500),
    ];

    for (price_str, expected_cents) in test_cases {
        let html = format!(
            r#"
            <div class="product">
                <h2 class="title">Test</h2>
                <span class="price">{}</span>
                <a class="product-link" href="/test"></a>
                <img class="product-img" src="/test.jpg" />
            </div>
        "#,
            price_str
        );

        let config = create_test_vendor_config();
        let deals = parse_vendor_response(&html, &config);

        assert_eq!(deals.len(), 1, "Failed for price_str: {}", price_str);
        assert_eq!(
            deals[0].price_cents, expected_cents,
            "Failed for price_str: {}",
            price_str
        );
    }
}

#[test]
fn test_relative_link_normalization() {
    let html = r#"
        <div class="product">
            <h2 class="title">Test Product</h2>
            <span class="price">$10.00</span>
            <a class="product-link" href="/products/test-item"></a>
            <img class="product-img" src="/test.jpg" />
        </div>
    "#;

    let config = create_test_vendor_config();
    let deals = parse_vendor_response(html, &config);

    assert_eq!(deals[0].link, "https://example.com/products/test-item");
}

#[test]
fn test_absolute_link_no_change() {
    let html = r#"
        <div class="product">
            <h2 class="title">Test Product</h2>
            <span class="price">$10.00</span>
            <a class="product-link" href="https://other.com/product"></a>
            <img class="product-img" src="/test.jpg" />
        </div>
    "#;

    let config = create_test_vendor_config();
    let deals = parse_vendor_response(html, &config);

    assert_eq!(deals[0].link, "https://other.com/product");
}

#[test]
fn test_image_with_data_src() {
    let html = r#"
        <div class="product">
            <h2 class="title">Test Product</h2>
            <span class="price">$10.00</span>
            <a class="product-link" href="/test"></a>
            <img class="product-img" data-src="https://example.com/lazy-image.jpg" />
        </div>
    "#;

    let config = create_test_vendor_config();
    let deals = parse_vendor_response(html, &config);

    assert_eq!(deals[0].image, "https://example.com/lazy-image.jpg");
}

#[test]
fn test_image_with_protocol_relative_url() {
    let html = r#"
        <div class="product">
            <h2 class="title">Test Product</h2>
            <span class="price">$10.00</span>
            <a class="product-link" href="/test"></a>
            <img class="product-img" src="//cdn.example.com/image.jpg" />
        </div>
    "#;

    let config = create_test_vendor_config();
    let deals = parse_vendor_response(html, &config);

    assert_eq!(deals[0].image, "https://cdn.example.com/image.jpg");
}

#[test]
fn test_missing_image_uses_placeholder() {
    let html = r#"
        <div class="product">
            <h2 class="title">Test Product</h2>
            <span class="price">$10.00</span>
            <a class="product-link" href="/test"></a>
        </div>
    "#;

    let config = create_test_vendor_config();
    let deals = parse_vendor_response(html, &config);

    assert_eq!(deals[0].image, "https://via.placeholder.com/300x300?text=No+Image");
}

#[test]
fn test_zero_price_items_excluded() {
    let html = r#"
        <div class="product">
            <h2 class="title">Free Item</h2>
            <span class="price">$0.00</span>
            <a class="product-link" href="/test"></a>
            <img class="product-img" src="/test.jpg" />
        </div>
        <div class="product">
            <h2 class="title">Paid Item</h2>
            <span class="price">$5.00</span>
            <a class="product-link" href="/test2"></a>
            <img class="product-img" src="/test2.jpg" />
        </div>
    "#;

    let config = create_test_vendor_config();
    let deals = parse_vendor_response(html, &config);

    assert_eq!(deals.len(), 1);
    assert_eq!(deals[0].title, "Paid Item");
}

#[test]
fn test_invalid_price_excluded() {
    let html = r#"
        <div class="product">
            <h2 class="title">Invalid Price</h2>
            <span class="price">Contact for price</span>
            <a class="product-link" href="/test"></a>
            <img class="product-img" src="/test.jpg" />
        </div>
    "#;

    let config = create_test_vendor_config();
    let deals = parse_vendor_response(html, &config);

    assert_eq!(deals.len(), 0);
}

#[test]
fn test_missing_title_uses_default() {
    let html = r#"
        <div class="product">
            <span class="price">$10.00</span>
            <a class="product-link" href="/test"></a>
            <img class="product-img" src="/test.jpg" />
        </div>
    "#;

    let config = create_test_vendor_config();
    let deals = parse_vendor_response(html, &config);

    assert_eq!(deals.len(), 1);
    assert_eq!(deals[0].title, "Unknown");
}

#[test]
fn test_missing_link_uses_hash() {
    let html = r#"
        <div class="product">
            <h2 class="title">Test Product</h2>
            <span class="price">$10.00</span>
            <img class="product-img" src="/test.jpg" />
        </div>
    "#;

    let config = create_test_vendor_config();
    let deals = parse_vendor_response(html, &config);

    assert_eq!(deals.len(), 1);
    assert_eq!(deals[0].link, "https://example.com#");
}

#[test]
fn test_get_vendors_returns_expected_count() {
    let vendors = get_vendors();
    assert_eq!(vendors.len(), 15, "Expected 15 vendors configured");
}

#[test]
fn test_vendors_have_valid_configuration() {
    let vendors = get_vendors();

    for vendor in vendors {
        assert!(!vendor.name.is_empty(), "Vendor name should not be empty");
        assert!(!vendor.url.is_empty(), "Vendor URL should not be empty");
        assert!(!vendor.backend.is_empty(), "Vendor backend should not be empty");
        assert!(
            vendor.base_url.starts_with("https://"),
            "Base URL should be HTTPS: {}",
            vendor.base_url
        );
        assert!(!vendor.selectors.card.is_empty(), "Card selector should not be empty");
        assert!(!vendor.selectors.title.is_empty(), "Title selector should not be empty");
        assert!(!vendor.selectors.price.is_empty(), "Price selector should not be empty");
    }
}

#[test]
fn all_configured_selector_sets_compile() {
    for vendor in get_vendors() {
        assert!(
            compile_selectors(&vendor.selectors).is_some(),
            "selector set must compile for {}",
            vendor.name
        );
    }
}

#[test]
fn test_trim_whitespace_in_title_and_price() {
    let html = r#"
        <div class="product">
            <h2 class="title">
                Test Product
            </h2>
            <span class="price">  $19.99  </span>
            <a class="product-link" href="/test"></a>
            <img class="product-img" src="/test.jpg" />
        </div>
    "#;

    let config = create_test_vendor_config();
    let deals = parse_vendor_response(html, &config);

    assert_eq!(deals[0].title, "Test Product");
    assert_eq!(deals[0].price_str, "$19.99");
}

#[test]
fn test_empty_html_returns_empty_deals() {
    let html = "<html><body></body></html>";
    let config = create_test_vendor_config();
    let deals = parse_vendor_response(html, &config);

    assert_eq!(deals.len(), 0);
}

#[test]
fn test_shopify_selector_pattern() {
    let html = r#"
        <div class="grid-view-item">
            <div class="grid-view-item__title">Shopify Product</div>
            <span class="price-item--sale">$29.99</span>
            <a class="grid-view-item__link" href="/products/test"></a>
            <img class="grid-view-item__image" src="/test.jpg" />
        </div>
    "#;

    let shopify_config = VendorConfig {
        name: "Shopify Test",
        url: "/test",
        backend: "test",
        base_url: "https://shopify.example.com",
        selectors: VendorSelectors {
            card: "div.grid-view-item, .product-card",
            title: "div.grid-view-item__title, .card__heading",
            price: "span.price-item--sale, span.price-item--regular",
            image: "img.grid-view-item__image, .card__media img",
            link: "a.grid-view-item__link, a.full-unstyled-link",
        },
    };

    let deals = parse_vendor_response(html, &shopify_config);

    assert_eq!(deals.len(), 1);
    assert_eq!(deals[0].title, "Shopify Product");
    assert_eq!(deals[0].price_cents, 2999);
}
