use vstd::prelude::*;

use crate::price::{price_cents_of_text, price_cents_from_text};
use crate::registry::VendorConfig;
use crate::text::{
    concat_strs, first_index_of, has_prefix, is_prefix_of, lemma_first_index_of, trim_spec,
    trim_str,
};

verus! {

/// One normalized, validated product entry.
#[derive(Debug, Clone)]
pub struct DealItem {
    pub vendor: String,
    pub title: String,
    pub price_str: String,
    /// The price in cents; always positive for an emitted item.
    pub price_cents: u64,
    pub link: String,
    pub image: String,
}

/// The raw fields of one product card, as found on the page: each is the
/// text or attribute behind the matching selector, absent when no element
/// (or no attribute) matched.
#[derive(Debug, Clone)]
pub struct RawCard {
    pub title: Option<String>,
    pub price: Option<String>,
    pub link: Option<String>,
    pub image_src: Option<String>,
    pub image_data_src: Option<String>,
    pub image_srcset: Option<String>,
}

pub open spec fn opt_view(o: Option<String>) -> Option<Seq<char>> {
    match o {
        Some(s) => Some(s@),
        None => None,
    }
}

pub open spec fn placeholder_image() -> Seq<char> {
    "https://via.placeholder.com/300x300?text=No+Image"@
}

/// The displayed title: the extracted text, trimmed; a fixed word when no
/// title element matched.
pub open spec fn title_of(t: Option<Seq<char>>) -> Seq<char> {
    match t {
        Some(s) => trim_spec(s),
        None => "Unknown"@,
    }
}

/// The displayed price text: the extracted text, trimmed; a zero price when
/// no price element matched.
pub open spec fn price_text_of(p: Option<Seq<char>>) -> Seq<char> {
    match p {
        Some(s) => trim_spec(s),
        None => "$0.00"@,
    }
}

/// The link: the extracted reference, `#` when absent; prefixed with the
/// vendor's origin by plain concatenation unless it already begins with
/// `http`.
pub open spec fn link_of(href: Option<Seq<char>>, base: Seq<char>) -> Seq<char> {
    let v = match href {
        Some(h) => h,
        None => "#"@,
    };
    if is_prefix_of("http"@, v) {
        v
    } else {
        base + v
    }
}

/// The first URL of a responsive source set: up to the first comma, then up
/// to the first space.
pub open spec fn srcset_first_token(s: Seq<char>) -> Seq<char> {
    let c = first_index_of(s, ',');
    let j = first_index_of(s.subrange(0, c), ' ');
    s.subrange(0, j)
}

/// The image: the direct source if present, else the lazy-load source, else
/// the first token of the source set, else a fixed placeholder; a
/// protocol-relative result gets the `https:` scheme.
pub open spec fn image_of(
    src: Option<Seq<char>>,
    data_src: Option<Seq<char>>,
    srcset: Option<Seq<char>>,
) -> Seq<char> {
    let chosen = match src {
        Some(v) => Some(v),
        None => match data_src {
            Some(v) => Some(v),
            None => match srcset {
                Some(v) => Some(srcset_first_token(v)),
                None => None,
            },
        },
    };
    match chosen {
        None => placeholder_image(),
        Some(v) => if is_prefix_of("//"@, v) {
            "https:"@ + v
        } else {
            v
        },
    }
}

/// The price of a card, in cents.
pub open spec fn card_cents(card: RawCard) -> int {
    price_cents_of_text(price_text_of(opt_view(card.price)))
}

/// How an emitted item relates to the card it came from.
pub open spec fn deal_matches_card(d: DealItem, card: RawCard, config: VendorConfig) -> bool {
    &&& d.vendor@ == config.name@
    &&& d.title@ == title_of(opt_view(card.title))
    &&& d.price_str@ == price_text_of(opt_view(card.price))
    &&& d.price_cents as int == card_cents(card)
    &&& d.link@ == link_of(opt_view(card.link), config.base_url@)
    &&& d.image@ == image_of(
        opt_view(card.image_src),
        opt_view(card.image_data_src),
        opt_view(card.image_srcset),
    )
}

/// Normalize an extracted reference into the item's link.
pub fn normalize_link(href: Option<&str>, base_url: &str) -> (r: String)
    ensures
        r@ == link_of(
            match href {
                Some(h) => Some(h@),
                None => None,
            },
            base_url@,
        ),
{
    let h: &str = match href {
        Some(h) => h,
        None => "#",
    };
    if has_prefix(h, "http") {
        h.to_owned()
    } else {
        concat_strs(base_url, h)
    }
}

/// The first URL of a responsive source set attribute.
pub fn first_srcset_token_str(s: &str) -> (r: String)
    ensures
        r@ == srcset_first_token(s@),
{
    let n = s.unicode_len();
    let mut c: usize = 0;
    while c < n && s.get_char(c) != ','
        invariant
            0 <= c <= n,
            n == s@.len(),
            forall|k: int| 0 <= k < c ==> s@[k] != ',',
        decreases n - c,
    {
        c = c + 1;
    }
    proof {
        lemma_first_index_of(s@, ',', c as int);
    }
    let mut j: usize = 0;
    while j < c && s.get_char(j) != ' '
        invariant
            0 <= j <= c <= n,
            n == s@.len(),
            forall|k: int| 0 <= k < j ==> s@[k] != ' ',
        decreases c - j,
    {
        j = j + 1;
    }
    proof {
        let prefix = s@.subrange(0, c as int);
        assert forall|k: int| 0 <= k < j implies prefix[k] != ' ' by {}
        lemma_first_index_of(prefix, ' ', j as int);
        assert(prefix.subrange(0, j as int) =~= s@.subrange(0, j as int));
        assert(srcset_first_token(s@) == s@.subrange(0, j as int));
    }
    let sub = s.substring_char(0, j);
    sub.to_owned()
}

/// Normalize the extracted image attributes into the item's image URL.
pub fn normalize_image(src: Option<&str>, data_src: Option<&str>, srcset: Option<&str>) -> (r:
    String)
    ensures
        r@ == image_of(
            match src {
                Some(v) => Some(v@),
                None => None,
            },
            match data_src {
                Some(v) => Some(v@),
                None => None,
            },
            match srcset {
                Some(v) => Some(v@),
                None => None,
            },
        ),
{
    let chosen: Option<String> = match src {
        Some(v) => Some(v.to_owned()),
        None => match data_src {
            Some(v) => Some(v.to_owned()),
            None => match srcset {
                Some(v) => Some(first_srcset_token_str(v)),
                None => None,
            },
        },
    };
    match chosen {
        None => "https://via.placeholder.com/300x300?text=No+Image".to_owned(),
        Some(v) => {
            if has_prefix(v.as_str(), "//") {
                concat_strs("https:", v.as_str())
            } else {
                v
            }
        },
    }
}

/// Build the normalized item for one card, or nothing when its price does
/// not come out positive: zero, missing and unreadable prices are dropped.
pub fn deal_from_card(card: &RawCard, config: &VendorConfig) -> (r: Option<DealItem>)
    ensures
        r is Some <==> card_cents(*card) > 0,
        match r {
            Some(d) => deal_matches_card(d, *card, *config),
            None => true,
        },
{
    let title = match &card.title {
        Some(s) => trim_str(s.as_str()),
        None => "Unknown".to_owned(),
    };
    let price_str = match &card.price {
        Some(s) => trim_str(s.as_str()),
        None => "$0.00".to_owned(),
    };
    let price_cents = price_cents_from_text(price_str.as_str());
    let link = normalize_link(
        match &card.link {
            Some(s) => Some(s.as_str()),
            None => None,
        },
        config.base_url,
    );
    let image = normalize_image(
        match &card.image_src {
            Some(s) => Some(s.as_str()),
            None => None,
        },
        match &card.image_data_src {
            Some(s) => Some(s.as_str()),
            None => None,
        },
        match &card.image_srcset {
            Some(s) => Some(s.as_str()),
            None => None,
        },
    );
    if price_cents > 0 {
        Some(
            DealItem {
                vendor: config.name.to_owned(),
                title,
                price_str,
                price_cents,
                link,
                image,
            },
        )
    } else {
        None
    }
}

/// Normalizing a link that is already absolute leaves it unchanged.
pub proof fn lemma_absolute_link_unchanged(h: Seq<char>, base: Seq<char>)
    requires
        is_prefix_of("http"@, h),
    ensures
        link_of(Some(h), base) == h,
{
}

/// Link normalization is idempotent: once the vendor's origin begins with
/// `http`, a second application changes nothing.
pub proof fn lemma_link_normalization_idempotent(href: Option<Seq<char>>, base: Seq<char>)
    requires
        is_prefix_of("http"@, base),
    ensures
        link_of(Some(link_of(href, base)), base) == link_of(href, base),
{
    let v = match href {
        Some(h) => h,
        None => "#"@,
    };
    if !is_prefix_of("http"@, v) {
        assert((base + v).subrange(0, "http"@.len() as int) =~= base.subrange(
            0,
            "http"@.len() as int,
        ));
    }
}

/// A protocol-relative image URL always comes out with the `https:` scheme.
pub proof fn lemma_protocol_relative_image(
    src: Seq<char>,
    data_src: Option<Seq<char>>,
    srcset: Option<Seq<char>>,
)
    requires
        is_prefix_of("//"@, src),
    ensures
        image_of(Some(src), data_src, srcset) == "https:"@ + src,
{
}

/// The documented defaults: a missing title names the item `Unknown`, a
/// missing link is the vendor's origin plus `#`, and a missing image is the
/// placeholder URL.
pub proof fn lemma_missing_field_defaults(base: Seq<char>)
    ensures
        title_of(None) == "Unknown"@,
        link_of(None, base) == base + "#"@,
        image_of(None, None, None) == placeholder_image(),
{
    reveal_strlit("#");
    reveal_strlit("http");
    assert(!is_prefix_of("http"@, "#"@));
}

} // verus!
