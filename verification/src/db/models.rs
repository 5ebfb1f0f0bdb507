//! Rows of the `resource_`, `item_`, `trader_`, `price_data_` and
//! `trader_price_data_` tables, as read (`Resource`, `Item`, ...) and as
//! written (`NewResource`, `NewItem`, ...).

use vstd::prelude::*;

verus! {

#[derive(Debug, Clone, PartialEq, Eq)]
pub struct Resource {
    pub key: String,
    pub value: String,
}

#[derive(Debug, Clone, Copy, PartialEq, Eq)]
pub struct NewResource<'a> {
    pub key: &'a str,
    pub value: &'a str,
}

#[derive(Debug, Clone, PartialEq, Eq)]
pub struct Item {
    pub id: String,
    pub icon_link: Option<String>,
    pub wiki_link: Option<String>,
    pub image_link: Option<String>,
}

#[derive(Debug, Clone, Copy, PartialEq, Eq)]
pub struct NewItem<'a> {
    pub id: &'a str,
    pub icon_link: Option<&'a str>,
    pub wiki_link: Option<&'a str>,
    pub image_link: Option<&'a str>,
}

#[derive(Debug, Clone, PartialEq, Eq)]
pub struct Trader {
    pub id: String,
    pub name: String,
}

#[derive(Debug, Clone, Copy, PartialEq, Eq)]
pub struct NewTrader<'a> {
    pub id: &'a str,
    pub name: &'a str,
}

#[derive(Debug, Clone, PartialEq, Eq)]
pub struct PriceData {
    pub item_id: String,
    pub timestamp: i64,
    pub base_price: i64,
    pub avg_24h_price: Option<i64>,
}

#[derive(Debug, Clone, Copy, PartialEq, Eq)]
pub struct NewPriceData<'a> {
    pub item_id: &'a str,
    pub timestamp: i64,
    pub base_price: i64,
    pub avg_24h_price: Option<i64>,
}

#[derive(Debug, Clone, PartialEq, Eq)]
pub struct TraderPriceData {
    pub item_id: String,
    pub trader_id: String,
    pub timestamp: i64,
    pub price: i64,
}

#[derive(Debug, Clone, Copy, PartialEq, Eq)]
pub struct NewTraderPriceData<'a> {
    pub item_id: &'a str,
    pub trader_id: &'a str,
    pub timestamp: i64,
    pub price: i64,
}

} // verus!
