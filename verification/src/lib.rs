//! Aggregation of discounted-product listings from a fixed set of
//! storefronts into one normalized, price-sorted feed.
//!
//! The modules follow the data's path: `registry` holds the fixed vendor
//! table; `extract` turns one vendor's page into raw product cards and, via
//! `deal`, into normalized items; `price` reads heterogeneous price text as
//! a number of cents; `aggregate` merges the per-vendor lists and sorts them
//! ascending by price, stably. `text` holds the character-level utilities
//! the normalizers are specified with.

pub mod text;
pub mod price;
pub mod registry;
pub mod deal;
pub mod aggregate;
pub mod extract;
