//! Fetching market data: the request to send and what its answer means.

pub mod models;

use vstd::prelude::*;

verus! {

/// The GraphQL endpoint of the market data API.
pub const FETCH_URI: &'static str = "https://api.tarkov.dev/graphql";

/// The GraphQL query for every item with its prices.
pub const ITEMS_QUERY: &'static str = "{itemsByType(type: any) {id,basePrice,updated,iconLink,wikiLink,imageLink,avg24hPrice,traderPrices { price,trader {id,name}}}}";

/// Why fetching failed.
#[derive(Debug)]
pub enum FetchError {
    /// The request failed or was answered with an error status; the HTTP
    /// client's message.
    Reqwest(String),
    /// The API answered with GraphQL errors.
    Graphql,
}

/// The items that an answer of the API carries; an answer with errors is
/// [`FetchError::Graphql`].
pub fn items_of(response: models::Response) -> (r: Result<Vec<models::Item>, FetchError>)
    ensures
        match response {
            models::Response::Data { items_by_type } => r == Ok::<Vec<models::Item>, FetchError>(
                items_by_type,
            ),
            models::Response::Error {  } => r matches Err(FetchError::Graphql),
        },
{
    match response {
        models::Response::Data { items_by_type } => Ok(items_by_type),
        models::Response::Error {  } => Err(FetchError::Graphql),
    }
}

} // verus!
