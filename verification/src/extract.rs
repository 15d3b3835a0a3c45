use vstd::prelude::*;

use crate::aggregate::all_positive;
use crate::deal::{card_cents, deal_from_card, deal_matches_card, DealItem, RawCard};
use crate::registry::{VendorConfig, VendorSelectors};

verus! {

#[verifier::external_type_specification]
#[verifier::external_body]
pub struct ExSelector(scraper::Selector);

#[verifier::external_type_specification]
#[verifier::external_body]
pub struct ExElementRef<'a>(scraper::ElementRef<'a>);

/// Whether a selector expression compiles; `scraper::Selector::parse`
/// accepts or rejects a string on its content alone.
pub uninterp spec fn selector_ok(s: Seq<char>) -> bool;

/// Every selector expression of the set compiles.
pub open spec fn selectors_ok(sels: VendorSelectors) -> bool {
    &&& selector_ok(sels.card@)
    &&& selector_ok(sels.title@)
    &&& selector_ok(sels.price@)
    &&& selector_ok(sels.image@)
    &&& selector_ok(sels.link@)
}

/// The raw card extraction: for one document text and five selector
/// expressions, the sequence of card elements matching the card selector,
/// in document order, each reduced to its raw fields (first title and price
/// texts, first link's `href`, first image's three source attributes).
/// Parsing and selection in scraper depend on these six strings alone.
pub uninterp spec fn raw_cards_of(
    html: Seq<char>,
    card: Seq<char>,
    title: Seq<char>,
    price: Seq<char>,
    image: Seq<char>,
    link: Seq<char>,
) -> Seq<RawCard>;

/// The cards a run keeps: those whose price comes out positive, in order.
pub open spec fn kept_cards(cards: Seq<RawCard>) -> Seq<RawCard> {
    cards.filter(|c: RawCard| card_cents(c) > 0)
}

/// `deals` is exactly the normalization of `cards`: one item per kept card,
/// in order, each field as the normalizers define it.
pub open spec fn matches_cards(
    deals: Seq<DealItem>,
    cards: Seq<RawCard>,
    config: VendorConfig,
) -> bool {
    let kept = kept_cards(cards);
    &&& deals.len() == kept.len()
    &&& forall|i: int|
        0 <= i < kept.len() ==> deal_matches_card(#[trigger] deals[i], kept[i], config)
}

/// Relies on scraper::Selector::parse: compiles a selector expression, or
/// rejects it; which of the two depends on the string alone.
#[verifier::external_body]
fn parse_selector(s: &str) -> (r: Option<scraper::Selector>)
    ensures
        r is Some <==> selector_ok(s@),
{
    scraper::Selector::parse(s).ok()
}

/// Relies on scraper::ElementRef::select: the first descendant element
/// matching the selector, if any.
#[verifier::external_body]
fn select_first<'a>(
    el: &scraper::ElementRef<'a>,
    sel: &scraper::Selector,
) -> Option<scraper::ElementRef<'a>> {
    el.select(sel).next()
}

/// Relies on scraper::ElementRef::text: the concatenated text of the
/// element's descendant text nodes.
#[verifier::external_body]
fn element_text(el: &scraper::ElementRef<'_>) -> String {
    el.text().collect()
}

/// Relies on scraper::ElementRef::attr: the value of the named attribute,
/// if the element carries it.
#[verifier::external_body]
fn element_attr(el: &scraper::ElementRef<'_>, name: &str) -> Option<String> {
    el.attr(name).map(str::to_owned)
}

/// One storefront's selector set, compiled.
pub struct CompiledSelectors {
    card: scraper::Selector,
    title: scraper::Selector,
    price: scraper::Selector,
    image: scraper::Selector,
    link: scraper::Selector,
}

/// Compile a selector set; a set with any expression that does not compile
/// is rejected whole, so that a bad registry entry fails at validation, not
/// per request.
pub fn compile_selectors(sels: &VendorSelectors) -> (r: Option<CompiledSelectors>)
    ensures
        r is Some <==> selectors_ok(*sels),
{
    let card = match parse_selector(sels.card) {
        Some(s) => s,
        None => {
            return None;
        },
    };
    let title = match parse_selector(sels.title) {
        Some(s) => s,
        None => {
            return None;
        },
    };
    let price = match parse_selector(sels.price) {
        Some(s) => s,
        None => {
            return None;
        },
    };
    let image = match parse_selector(sels.image) {
        Some(s) => s,
        None => {
            return None;
        },
    };
    let link = match parse_selector(sels.link) {
        Some(s) => s,
        None => {
            return None;
        },
    };
    Some(CompiledSelectors { card, title, price, image, link })
}

/// The raw fields of one card element: text behind the title and price
/// selectors, the `href` behind the link selector, and the three image
/// source attributes.
fn raw_card_of<'a>(el: &scraper::ElementRef<'a>, sels: &CompiledSelectors) -> RawCard {
    let title = match select_first(el, &sels.title) {
        Some(e) => Some(element_text(&e)),
        None => None,
    };
    let price = match select_first(el, &sels.price) {
        Some(e) => Some(element_text(&e)),
        None => None,
    };
    let link = match select_first(el, &sels.link) {
        Some(e) => element_attr(&e, "href"),
        None => None,
    };
    let (image_src, image_data_src, image_srcset) = match select_first(el, &sels.image) {
        Some(e) => (element_attr(&e, "src"), element_attr(&e, "data-src"), element_attr(
            &e,
            "srcset",
        )),
        None => (None, None, None),
    };
    RawCard { title, price, link, image_src, image_data_src, image_srcset }
}

/// Relies on scraper::Html::parse_document and Html::select: for a valid
/// selector set, the matching card elements in document order, each read
/// through the verified `raw_card_of`; the whole is `raw_cards_of`, a
/// function of the six strings alone.
#[verifier::external_body]
fn extract_raw_cards(html: &str, sels: &VendorSelectors) -> (r: Vec<RawCard>)
    requires
        selectors_ok(*sels),
    ensures
        r@ == raw_cards_of(html@, sels.card@, sels.title@, sels.price@, sels.image@, sels.link@),
{
    let cs = CompiledSelectors {
        card: scraper::Selector::parse(sels.card).unwrap(),
        title: scraper::Selector::parse(sels.title).unwrap(),
        price: scraper::Selector::parse(sels.price).unwrap(),
        image: scraper::Selector::parse(sels.image).unwrap(),
        link: scraper::Selector::parse(sels.link).unwrap(),
    };
    let doc = scraper::Html::parse_document(html);
    doc.select(&cs.card).map(|el| raw_card_of(&el, &cs)).collect()
}

/// `d` is the normalization of some card's raw fields, and that card's
/// price came out positive.
pub open spec fn from_some_card(d: DealItem, config: VendorConfig) -> bool {
    exists|c: RawCard| card_cents(c) > 0 && deal_matches_card(d, c, config)
}

/// What holds of everything a vendor's page can yield: only positive-priced
/// items, each carrying the vendor's name, and each the normalization of
/// some card's raw fields.
pub open spec fn deals_ok(deals: Seq<DealItem>, config: VendorConfig) -> bool {
    &&& all_positive(deals)
    &&& forall|i: int| 0 <= i < deals.len() ==> (#[trigger] deals[i]).vendor@ == config.name@
    &&& forall|i: int| 0 <= i < deals.len() ==> from_some_card(#[trigger] deals[i], config)
}

/// The named extraction of a whole vendor configuration: the page's cards
/// under the configuration's five selector expressions.
pub open spec fn config_cards_of(html: Seq<char>, config: VendorConfig) -> Seq<RawCard> {
    raw_cards_of(
        html,
        config.selectors.card@,
        config.selectors.title@,
        config.selectors.price@,
        config.selectors.image@,
        config.selectors.link@,
    )
}

proof fn lemma_kept_push(cards: Seq<RawCard>, c: RawCard)
    ensures
        kept_cards(cards.push(c)) == if card_cents(c) > 0 {
            kept_cards(cards).push(c)
        } else {
            kept_cards(cards)
        },
{
    reveal(Seq::filter);
    assert(cards.push(c).drop_last() =~= cards);
}

/// Every item a vendor page yields: one per card element whose normalized
/// price comes out positive, in document order and nothing else, each
/// normalized from its own card's raw fields.
pub fn parse_vendor_response(html: &str, config: &VendorConfig) -> (deals: Vec<DealItem>)
    ensures
        deals_ok(deals@, *config),
        selectors_ok(config.selectors) ==> matches_cards(
            deals@,
            config_cards_of(html@, *config),
            *config,
        ),
        !selectors_ok(config.selectors) ==> deals@.len() == 0,
{
    if compile_selectors(&config.selectors).is_none() {
        return Vec::new();
    }
    let cards = extract_raw_cards(html, &config.selectors);
    let mut deals: Vec<DealItem> = Vec::new();
    let mut i: usize = 0;
    while i < cards.len()
        invariant
            0 <= i <= cards@.len(),
            deals_ok(deals@, *config),
            matches_cards(deals@, cards@.subrange(0, i as int), *config),
        decreases cards.len() - i,
    {
        let ghost prefix = cards@.subrange(0, i as int);
        let ghost kept_prev = kept_cards(prefix);
        proof {
            assert(cards@.subrange(0, i + 1) =~= prefix.push(cards@[i as int]));
            lemma_kept_push(prefix, cards@[i as int]);
        }
        let card = &cards[i];
        if let Some(d) = deal_from_card(card, config) {
            let ghost prev = deals@;
            deals.push(d);
            proof {
                assert(deals@ == prev.push(d));
                assert(deal_matches_card(d, *card, *config));
                assert(d.price_cents as int == card_cents(*card));
                assert forall|k: int|
                    0 <= k < deals@.len() implies deals@[k].price_cents > 0 && (
                #[trigger] deals@[k]).vendor@ == config.name@ by {
                    if k < prev.len() {
                        assert(deals@[k] == prev[k]);
                    } else {
                        assert(deals@[k] == d);
                    }
                }
                assert(from_some_card(d, *config)) by {
                    assert(card_cents(*card) > 0 && deal_matches_card(d, *card, *config));
                }
                assert forall|k: int|
                    0 <= k < deals@.len() implies from_some_card(#[trigger] deals@[k], *config) by {
                    if k < prev.len() {
                        assert(deals@[k] == prev[k]);
                        assert(from_some_card(prev[k], *config));
                    } else {
                        assert(deals@[k] == d);
                    }
                }
                let kept_now = kept_cards(cards@.subrange(0, i + 1));
                assert(kept_now == kept_prev.push(cards@[i as int]));
                assert forall|k: int|
                    0 <= k < kept_now.len() implies deal_matches_card(
                    #[trigger] deals@[k],
                    kept_now[k],
                    *config,
                ) by {
                    if k < kept_prev.len() {
                        assert(deals@[k] == prev[k]);
                        assert(kept_now[k] == kept_prev[k]);
                        assert(deal_matches_card(prev[k], kept_prev[k], *config));
                    } else {
                        assert(deals@[k] == d);
                        assert(kept_now[k] == cards@[i as int]);
                    }
                }
            }
        } else {
            proof {
                assert(kept_cards(cards@.subrange(0, i + 1)) == kept_prev);
            }
        }
        i = i + 1;
    }
    proof {
        assert(cards@.subrange(0, cards@.len() as int) =~= cards@);
    }
    deals
}

/// The items one vendor contributes for one fetch outcome: a non-success
/// status yields nothing; a success status yields exactly what its page
/// parses to under the vendor's selectors. A transport failure never
/// reaches this point and contributes the empty list by construction.
pub fn deals_from_response(status: u16, body: &str, config: &VendorConfig) -> (deals: Vec<
    DealItem,
>)
    ensures
        deals_ok(deals@, *config),
        !(200 <= status < 300) ==> deals@.len() == 0,
        200 <= status < 300 && selectors_ok(config.selectors) ==> matches_cards(
            deals@,
            config_cards_of(body@, *config),
            *config,
        ),
        200 <= status < 300 && !selectors_ok(config.selectors) ==> deals@.len() == 0,
{
    if 200 <= status && status < 300 {
        parse_vendor_response(body, config)
    } else {
        Vec::new()
    }
}

} // verus!
