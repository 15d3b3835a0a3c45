use vstd::prelude::*;

use crate::text::is_prefix_of;

verus! {

/// The five structural match expressions for one storefront. Each entry may
/// hold a comma-separated list of alternatives; the first structural match
/// wins.
#[derive(Clone, Copy)]
pub struct VendorSelectors {
    pub card: &'static str,
    pub title: &'static str,
    pub price: &'static str,
    pub image: &'static str,
    pub link: &'static str,
}

/// One configured storefront: a display name, the listing path to fetch, the
/// routing identifier of its physical host, the absolute origin that resolves
/// relative links, and its selector set.
#[derive(Clone, Copy)]
pub struct VendorConfig {
    pub name: &'static str,
    pub url: &'static str,
    pub backend: &'static str,
    pub base_url: &'static str,
    pub selectors: VendorSelectors,
}

/// The selector set shared by the storefronts on a common shop platform.
pub open spec fn shopify_selectors() -> VendorSelectors {
    VendorSelectors {
        card: "div.grid-view-item, .product-card, .product-item, .card-wrapper, .product-grid-item",
        title:
            "div.grid-view-item__title, .card__heading, .product-item__title, .full-unstyled-link, .product-title, h3 a",
        price:
            "span.price-item--sale, span.price-item--regular, .price__current, .product-price__price, .money, .price",
        image:
            "img.grid-view-item__image, .card__media img, .product-item__image-wrapper img, .product-grid-image img",
        link:
            "a.grid-view-item__link, a.full-unstyled-link, .product-item__image-link, .product-card a",
    }
}

/// The fixed registry: which storefronts are aggregated, in dispatch and
/// tie-break order.
pub open spec fn vendor_table() -> Seq<VendorConfig> {
    seq![
        VendorConfig {
            name: "GetFPV",
            url: "/on-sale/clearance.html?product_list_limit=100",
            backend: "getfpv",
            base_url: "https://www.getfpv.com",
            selectors: VendorSelectors {
                card: "li.product-item",
                title: "a.product-item-link",
                price: "span.price",
                image: "img.product-image-photo",
                link: "a.product-item-photo",
            },
        },
        VendorConfig {
            name: "RaceDayQuads",
            url: "/collections/clearance",
            backend: "racedayquads",
            base_url: "https://www.racedayquads.com",
            selectors: VendorSelectors {
                card: "div.product-item",
                title: "a.product-item__title",
                price: "span.price",
                image: "div.product-item__image-wrapper img",
                link: "a.product-item__title",
            },
        },
        VendorConfig {
            name: "Pyrodrone",
            url: "/collections/clearance",
            backend: "pyrodrone",
            base_url: "https://pyrodrone.com",
            selectors: shopify_selectors(),
        },
        VendorConfig {
            name: "NewBeeDrone",
            url: "/collections/clearance",
            backend: "newbeedrone",
            base_url: "https://newbeedrone.com",
            selectors: shopify_selectors(),
        },
        VendorConfig {
            name: "DefianceRC",
            url: "/collections/discounted-products",
            backend: "defiancerc",
            base_url: "https://www.defiancerc.com",
            selectors: shopify_selectors(),
        },
        VendorConfig {
            name: "TinyWhoop",
            url: "/collections/clearance",
            backend: "tinywhoop",
            base_url: "https://www.tinywhoop.com",
            selectors: shopify_selectors(),
        },
        VendorConfig {
            name: "Wrekd",
            url: "/collections/clearance",
            backend: "wrekd",
            base_url: "https://wrekd.com",
            selectors: shopify_selectors(),
        },
        VendorConfig {
            name: "Webleedfpv",
            url: "/collections/clearance-1",
            backend: "webleedfpv",
            base_url: "https://webleedfpv.com",
            selectors: shopify_selectors(),
        },
        VendorConfig {
            name: "Five33",
            url: "/collections/last-chance-sale",
            backend: "five33",
            base_url: "https://flyfive33.com",
            selectors: shopify_selectors(),
        },
        VendorConfig {
            name: "BetaFPV",
            url: "/collections/on-sale",
            backend: "betafpv",
            base_url: "https://betafpv.com",
            selectors: shopify_selectors(),
        },
        VendorConfig {
            name: "ProgressiveRC",
            url: "/collections/clearance",
            backend: "progressiverc",
            base_url: "https://www.progressiverc.com",
            selectors: shopify_selectors(),
        },
        VendorConfig {
            name: "Emax USA",
            url: "/collections/clearance",
            backend: "emax",
            base_url: "https://emax-usa.com",
            selectors: shopify_selectors(),
        },
        VendorConfig {
            name: "Rotor Riot",
            url: "/collections/clearance-sale",
            backend: "rotorriot",
            base_url: "https://rotorriot.com",
            selectors: shopify_selectors(),
        },
        VendorConfig {
            name: "Stan FPV",
            url: "/collections/black-friday-cyber-monday-sale-items",
            backend: "stanfpv",
            base_url: "https://stanfpv.com",
            selectors: shopify_selectors(),
        },
        VendorConfig {
            name: "Ovonic",
            url: "/collections/hot-sale",
            backend: "ovonic",
            base_url: "https://us.ovonicshop.com",
            selectors: shopify_selectors(),
        },
    ]
}

/// A well-formed registry entry: no blank identifier, an HTTPS origin, and
/// no blank card, title or price selector.
pub open spec fn valid_vendor(v: VendorConfig) -> bool {
    &&& v.name@.len() > 0
    &&& v.url@.len() > 0
    &&& v.backend@.len() > 0
    &&& is_prefix_of("https://"@, v.base_url@)
    &&& v.selectors.card@.len() > 0
    &&& v.selectors.title@.len() > 0
    &&& v.selectors.price@.len() > 0
}

proof fn lemma_shopify_selectors_valid()
    ensures
        shopify_selectors().card@.len() > 0,
        shopify_selectors().title@.len() > 0,
        shopify_selectors().price@.len() > 0,
{
    reveal_strlit(
        "div.grid-view-item, .product-card, .product-item, .card-wrapper, .product-grid-item",
    );
    reveal_strlit(
        "div.grid-view-item__title, .card__heading, .product-item__title, .full-unstyled-link, .product-title, h3 a",
    );
    reveal_strlit(
        "span.price-item--sale, span.price-item--regular, .price__current, .product-price__price, .money, .price",
    );
}

/// Registry validation: every configured storefront is well-formed, so a
/// blank or non-HTTPS entry cannot reach a pipeline run.
pub proof fn lemma_vendor_table_valid()
    ensures
        vendor_table().len() == 15,
        forall|i: int| 0 <= i < vendor_table().len() ==> valid_vendor(#[trigger] vendor_table()[i]),
{
    lemma_shopify_selectors_valid();
    reveal_strlit("https://");
    reveal_strlit("GetFPV");
    reveal_strlit("/on-sale/clearance.html?product_list_limit=100");
    reveal_strlit("getfpv");
    reveal_strlit("https://www.getfpv.com");
    reveal_strlit("li.product-item");
    reveal_strlit("a.product-item-link");
    reveal_strlit("span.price");
    reveal_strlit("RaceDayQuads");
    reveal_strlit("/collections/clearance");
    reveal_strlit("racedayquads");
    reveal_strlit("https://www.racedayquads.com");
    reveal_strlit("div.product-item");
    reveal_strlit("a.product-item__title");
    reveal_strlit("Pyrodrone");
    reveal_strlit("pyrodrone");
    reveal_strlit("https://pyrodrone.com");
    reveal_strlit("NewBeeDrone");
    reveal_strlit("newbeedrone");
    reveal_strlit("https://newbeedrone.com");
    reveal_strlit("DefianceRC");
    reveal_strlit("/collections/discounted-products");
    reveal_strlit("defiancerc");
    reveal_strlit("https://www.defiancerc.com");
    reveal_strlit("TinyWhoop");
    reveal_strlit("tinywhoop");
    reveal_strlit("https://www.tinywhoop.com");
    reveal_strlit("Wrekd");
    reveal_strlit("wrekd");
    reveal_strlit("https://wrekd.com");
    reveal_strlit("Webleedfpv");
    reveal_strlit("/collections/clearance-1");
    reveal_strlit("webleedfpv");
    reveal_strlit("https://webleedfpv.com");
    reveal_strlit("Five33");
    reveal_strlit("/collections/last-chance-sale");
    reveal_strlit("five33");
    reveal_strlit("https://flyfive33.com");
    reveal_strlit("BetaFPV");
    reveal_strlit("/collections/on-sale");
    reveal_strlit("betafpv");
    reveal_strlit("https://betafpv.com");
    reveal_strlit("ProgressiveRC");
    reveal_strlit("progressiverc");
    reveal_strlit("https://www.progressiverc.com");
    reveal_strlit("Emax USA");
    reveal_strlit("emax");
    reveal_strlit("https://emax-usa.com");
    reveal_strlit("Rotor Riot");
    reveal_strlit("/collections/clearance-sale");
    reveal_strlit("rotorriot");
    reveal_strlit("https://rotorriot.com");
    reveal_strlit("Stan FPV");
    reveal_strlit("/collections/black-friday-cyber-monday-sale-items");
    reveal_strlit("stanfpv");
    reveal_strlit("https://stanfpv.com");
    reveal_strlit("Ovonic");
    reveal_strlit("/collections/hot-sale");
    reveal_strlit("ovonic");
    reveal_strlit("https://us.ovonicshop.com");
    assert forall|i: int| 0 <= i < vendor_table().len() implies valid_vendor(
        #[trigger] vendor_table()[i],
    ) by {
        let v = vendor_table()[i];
        assert(v.base_url@.subrange(0, 8) =~= "https://"@);
    }
}

/// The configured storefronts, exactly `vendor_table()`, in its order.
pub fn get_vendors() -> (r: Vec<VendorConfig>)
    ensures
        r@ == vendor_table(),
        r@.len() == 15,
{
    let shopify = VendorSelectors {
        card: "div.grid-view-item, .product-card, .product-item, .card-wrapper, .product-grid-item",
        title:
            "div.grid-view-item__title, .card__heading, .product-item__title, .full-unstyled-link, .product-title, h3 a",
        price:
            "span.price-item--sale, span.price-item--regular, .price__current, .product-price__price, .money, .price",
        image:
            "img.grid-view-item__image, .card__media img, .product-item__image-wrapper img, .product-grid-image img",
        link:
            "a.grid-view-item__link, a.full-unstyled-link, .product-item__image-link, .product-card a",
    };
    let getfpv = VendorSelectors {
        card: "li.product-item",
        title: "a.product-item-link",
        price: "span.price",
        image: "img.product-image-photo",
        link: "a.product-item-photo",
    };
    let rdq = VendorSelectors {
        card: "div.product-item",
        title: "a.product-item__title",
        price: "span.price",
        image: "div.product-item__image-wrapper img",
        link: "a.product-item__title",
    };
    let r = vec![
        VendorConfig {
            name: "GetFPV",
            url: "/on-sale/clearance.html?product_list_limit=100",
            backend: "getfpv",
            base_url: "https://www.getfpv.com",
            selectors: getfpv,
        },
        VendorConfig {
            name: "RaceDayQuads",
            url: "/collections/clearance",
            backend: "racedayquads",
            base_url: "https://www.racedayquads.com",
            selectors: rdq,
        },
        VendorConfig {
            name: "Pyrodrone",
            url: "/collections/clearance",
            backend: "pyrodrone",
            base_url: "https://pyrodrone.com",
            selectors: shopify,
        },
        VendorConfig {
            name: "NewBeeDrone",
            url: "/collections/clearance",
            backend: "newbeedrone",
            base_url: "https://newbeedrone.com",
            selectors: shopify,
        },
        VendorConfig {
            name: "DefianceRC",
            url: "/collections/discounted-products",
            backend: "defiancerc",
            base_url: "https://www.defiancerc.com",
            selectors: shopify,
        },
        VendorConfig {
            name: "TinyWhoop",
            url: "/collections/clearance",
            backend: "tinywhoop",
            base_url: "https://www.tinywhoop.com",
            selectors: shopify,
        },
        VendorConfig {
            name: "Wrekd",
            url: "/collections/clearance",
            backend: "wrekd",
            base_url: "https://wrekd.com",
            selectors: shopify,
        },
        VendorConfig {
            name: "Webleedfpv",
            url: "/collections/clearance-1",
            backend: "webleedfpv",
            base_url: "https://webleedfpv.com",
            selectors: shopify,
        },
        VendorConfig {
            name: "Five33",
            url: "/collections/last-chance-sale",
            backend: "five33",
            base_url: "https://flyfive33.com",
            selectors: shopify,
        },
        VendorConfig {
            name: "BetaFPV",
            url: "/collections/on-sale",
            backend: "betafpv",
            base_url: "https://betafpv.com",
            selectors: shopify,
        },
        VendorConfig {
            name: "ProgressiveRC",
            url: "/collections/clearance",
            backend: "progressiverc",
            base_url: "https://www.progressiverc.com",
            selectors: shopify,
        },
        VendorConfig {
            name: "Emax USA",
            url: "/collections/clearance",
            backend: "emax",
            base_url: "https://emax-usa.com",
            selectors: shopify,
        },
        VendorConfig {
            name: "Rotor Riot",
            url: "/collections/clearance-sale",
            backend: "rotorriot",
            base_url: "https://rotorriot.com",
            selectors: shopify,
        },
        VendorConfig {
            name: "Stan FPV",
            url: "/collections/black-friday-cyber-monday-sale-items",
            backend: "stanfpv",
            base_url: "https://stanfpv.com",
            selectors: shopify,
        },
        VendorConfig {
            name: "Ovonic",
            url: "/collections/hot-sale",
            backend: "ovonic",
            base_url: "https://us.ovonicshop.com",
            selectors: shopify,
        },
    ];
    proof {
        assert(r@ =~= vendor_table());
    }
    r
}

} // verus!
