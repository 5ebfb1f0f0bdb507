//! The values that the server reads from requests and answers with.

use vstd::prelude::*;

verus! {

/// A stored key/value resource.
#[derive(Debug, Clone, PartialEq, Eq, Hash)]
pub struct Resource {
    pub key: String,
    pub value: String,
}

/// A resource as text.
pub struct ResourceView {
    pub key: Seq<char>,
    pub value: Seq<char>,
}

impl View for Resource {
    type V = ResourceView;

    open spec fn view(&self) -> ResourceView {
        ResourceView { key: self.key@, value: self.value@ }
    }
}

/// A request to exchange a Discord refresh token for a new access token.
#[derive(Debug, Clone, PartialEq, Eq, Hash)]
pub struct OAuthRefreshData {
    pub client_id: String,
    pub refresh_token: String,
}

/// The token endpoint's answer to a refresh request.
#[derive(Debug, Clone, PartialEq, Eq, Hash)]
pub struct AccessTokenResponse {
    pub access_token: String,
    pub token_type: String,
    pub expires_in: i32,
    pub refresh_token: String,
    pub scope: String,
}

/// The newest base price of an item.
#[derive(Debug, Clone, PartialEq, Eq, Hash)]
pub struct PriceData {
    pub timestamp: i64,
    pub base_price: i64,
    pub avg_24h_price: Option<i64>,
}

/// What a trader pays for an item.
#[derive(Debug, Clone, PartialEq, Eq, Hash)]
pub struct TraderPriceData {
    pub trader_id: String,
    pub timestamp: i64,
    pub price: i64,
}

/// A market item as the server serves it.
#[derive(Debug, Clone, PartialEq, Eq, Hash)]
pub struct Item {
    pub id: String,
    pub icon_link: Option<String>,
    pub wiki_link: Option<String>,
    pub image_link: Option<String>,
    pub price_data: PriceData,
    pub trader_prices: Vec<TraderPriceData>,
}

} // verus!
