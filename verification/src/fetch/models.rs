//! The answer of the market data GraphQL API.

use vstd::prelude::*;

verus! {

/// The API's answer: the items, or errors.
#[derive(Debug)]
pub enum Response {
    Data { items_by_type: Vec<Item> },
    Error {  },
}

/// A market item with its prices.
#[derive(Debug, Clone)]
pub struct Item {
    pub id: String,
    pub base_price: i64,
    pub updated: Option<String>,
    pub icon_link: Option<String>,
    pub wiki_link: Option<String>,
    pub image_link: Option<String>,
    pub last_low_price: Option<i64>,
    pub low_24h_price: Option<i64>,
    pub avg_24h_price: Option<i64>,
    pub trader_prices: Vec<TraderPrice>,
}

/// What a trader pays for an item.
#[derive(Debug, Clone)]
pub struct TraderPrice {
    pub price: i64,
    pub trader: Trader,
}

/// A trader.
#[derive(Debug, Clone)]
pub struct Trader {
    pub id: String,
    pub name: String,
}

} // verus!
