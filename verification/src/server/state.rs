//! The market data that the server serves: per language, the items and their
//! JSON text gzip-compressed, shared between the request handlers and the
//! background service.
//!
//! The two maps are concurrent maps that the service writes while handlers
//! read them, so what a lookup finds depends on what was written in the
//! meantime; nothing here states it.

use vstd::prelude::*;
use std::io::Write;
use std::sync::Arc;
use dashmap::DashMap;
use crate::server::models::{Item, PriceData, TraderPriceData};

verus! {

/// `dashmap::DashMap`, a concurrent map written through shared references.
#[verifier::external_type_specification]
#[verifier::external_body]
#[verifier::reject_recursive_types(K)]
#[verifier::reject_recursive_types(V)]
#[verifier::reject_recursive_types(S)]
pub struct ExDashMap<K, V, S>(DashMap<K, V, S>);

/// Calls `DashMap::new`: an empty map.
#[verifier::external_body]
fn dashmap_new<V>() -> DashMap<String, V> {
    DashMap::new()
}

/// Calls `DashMap::insert`: `value` becomes the value of `key`. The map is
/// shared, so nothing is stated of what later lookups find.
#[verifier::external_body]
fn dashmap_insert<V>(map: &DashMap<String, V>, key: String, value: V) {
    map.insert(key, value);
}

/// Calls `DashMap::get` and clones the value found. What it finds depends on
/// what other threads have written, so nothing is stated of it.
#[verifier::external_body]
fn dashmap_get_bytes(map: &DashMap<String, Vec<u8>>, key: &str) -> Option<Vec<u8>> {
    map.get(key).map(|v| v.value().clone())
}

/// What gzip-compressing `data` at the best compression level gives:
/// `None` where the encoder fails.
pub uninterp spec fn gzip_best(data: Seq<u8>) -> Option<Seq<u8>>;

/// Calls `flate2::write::GzEncoder` at `Compression::best()`: writes `data`
/// into an encoder over an empty vector and finishes it. The encoder works on
/// memory alone, so its outcome depends on `data` only and is named
/// `gzip_best(data)`; a failure is the encoder's message.
#[verifier::external_body]
fn gzip(data: &[u8]) -> (r: Result<Vec<u8>, String>)
    ensures
        match r {
            Ok(v) => gzip_best(data@) == Some(v@),
            Err(_) => gzip_best(data@) is None,
        },
{
    let mut encoder = flate2::write::GzEncoder::new(Vec::new(), flate2::Compression::best());
    encoder.write_all(data).map_err(|e| e.to_string())?;
    encoder.finish().map_err(|e| e.to_string())
}

/// The compressed form in which the market items of a language are served:
/// their JSON text, gzip-compressed at the best level.
pub fn compress_market_items(json: &[u8]) -> (r: Result<Vec<u8>, String>)
    ensures
        match r {
            Ok(v) => gzip_best(json@) == Some(v@),
            Err(_) => gzip_best(json@) is None,
        },
{
    gzip(json)
}

/// The entries that storing the market data of `lang` puts into the two
/// maps: `lang` with the compressed JSON text, and `lang` with the items. A
/// failed compression gives no entries and is its message.
pub fn market_entries(lang: &str, items: Vec<Item>, json: &[u8]) -> (r: Result<
    ((String, Vec<u8>), (String, Vec<Item>)),
    String,
>)
    ensures
        match r {
            Ok(((gzip_key, compressed), (items_key, stored))) => {
                &&& gzip_key@ == lang@
                &&& gzip_best(json@) == Some(compressed@)
                &&& items_key@ == lang@
                &&& stored == items
            },
            Err(_) => gzip_best(json@) is None,
        },
{
    let compressed = compress_market_items(json)?;
    Ok(((lang.to_owned(), compressed), (lang.to_owned(), items)))
}

/// What to do after the data of the requested language was looked up.
#[derive(Debug)]
pub enum Lookup {
    /// This data was found: serve it.
    Found(Vec<u8>),
    /// Nothing was found for the requested language: serve what is found
    /// under this key, English.
    LookUp(&'static str),
    /// Nothing was found for English, which was asked for: serve nothing.
    Nothing,
}

/// Decides, from what the lookup of `requested_language(lang)` found, what a
/// request in `lang` is served: what was found; otherwise English where a
/// language was requested, and nothing where English itself was looked up.
pub fn after_first_lookup(lang: Option<&str>, found: Option<Vec<u8>>) -> (r: Lookup)
    ensures
        match found {
            Some(d) => r == Lookup::Found(d),
            None => match lang {
                Some(_) => r matches Lookup::LookUp(key) && key@ == "en"@,
                None => r is Nothing,
            },
        },
{
    match found {
        Some(d) => Lookup::Found(d),
        None => match lang {
            Some(_) => Lookup::LookUp("en"),
            None => Lookup::Nothing,
        },
    }
}

/// The item that an `item_` row is served as, given its newest price and
/// its trader prices; an item without a price is not served.
pub fn market_item(
    item: crate::db::models::Item,
    price_data: Option<PriceData>,
    trader_prices: Vec<TraderPriceData>,
) -> (r: Option<Item>)
    ensures
        match price_data {
            None => r is None,
            Some(p) => r == Some(
                Item {
                    id: item.id,
                    icon_link: item.icon_link,
                    wiki_link: item.wiki_link,
                    image_link: item.image_link,
                    price_data: p,
                    trader_prices,
                },
            ),
        },
{
    match price_data {
        None => None,
        Some(price_data) => Some(
            Item {
                id: item.id,
                icon_link: item.icon_link,
                wiki_link: item.wiki_link,
                image_link: item.image_link,
                price_data,
                trader_prices,
            },
        ),
    }
}

/// The market data of every language.
pub struct State {
    market_items: DashMap<String, Vec<Item>>,
    market_items_gzip: DashMap<String, Vec<u8>>,
}

/// The language whose data is looked up first for a request in `lang`:
/// the requested one, or English where none is requested.
pub fn requested_language<'a>(lang: Option<&'a str>) -> (l: &'a str)
    ensures
        l@ == match lang {
            Some(x) => x@,
            None => "en"@,
        },
{
    match lang {
        Some(l) => l,
        None => "en",
    }
}

impl State {
    /// No data for any language.
    pub fn new() -> State {
        State { market_items: dashmap_new(), market_items_gzip: dashmap_new() }
    }

    /// Stores `items` as the data of `lang`, with `json`, their JSON text,
    /// compressed; a failed compression stores nothing and is its message.
    pub fn update(&self, lang: &str, items: Vec<Item>, json: &[u8]) -> (r: Result<(), String>)
        ensures
            r is Ok <==> gzip_best(json@) is Some,
    {
        let ((gzip_key, compressed), (items_key, stored)) = market_entries(lang, items, json)?;
        dashmap_insert(&self.market_items_gzip, gzip_key, compressed);
        dashmap_insert(&self.market_items, items_key, stored);
        Ok(())
    }

    /// The compressed data of `lang`, falling back to English where `lang`
    /// has none; English where no language is requested.
    /// The decision between the two lookups is `after_first_lookup`; what
    /// each lookup finds depends on concurrent writes and is not stated.
    pub fn get(&self, lang: Option<&str>) -> Option<Vec<u8>> {
        let found = dashmap_get_bytes(&self.market_items_gzip, requested_language(lang));
        match after_first_lookup(lang, found) {
            Lookup::Found(data) => Some(data),
            Lookup::LookUp(key) => dashmap_get_bytes(&self.market_items_gzip, key),
            Lookup::Nothing => None,
        }
    }
}

/// A shared handle on the market data.
#[derive(Clone)]
pub struct StateHandle {
    inner: Arc<State>,
}

impl View for StateHandle {
    type V = State;

    /// The market data that the handle shares.
    closed spec fn view(&self) -> State {
        *self.inner
    }
}

impl StateHandle {
    /// A handle on empty market data.
    pub fn new() -> StateHandle {
        StateHandle { inner: Arc::new(State::new()) }
    }

    /// The market data.
    pub fn state(&self) -> (s: &State)
        ensures
            *s == self@,
    {
        &*self.inner
    }
}

impl std::ops::Deref for StateHandle {
    type Target = State;

    fn deref(&self) -> (s: &State)
        ensures
            *s == self@,
    {
        &*self.inner
    }
}

} // verus!
