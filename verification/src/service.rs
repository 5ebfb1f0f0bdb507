//! The background service: it fetches the market data, writes it to the
//! database and refreshes the served data, one language after another.
//!
//! The fetching, the database and the waiting are done by the caller; this
//! module decides what is written and what happens next.

use vstd::prelude::*;
use crate::db::models::{NewItem, NewPriceData, NewTrader, NewTraderPriceData};
use crate::fetch::models::{Item, TraderPrice};

verus! {

/// A row that the service writes, replacing the row of the same key.
#[derive(Debug, Clone, Copy, PartialEq, Eq)]
pub enum Write<'a> {
    /// Upsert into `item_` by `id`.
    Item(NewItem<'a>),
    /// Upsert into `price_data_` by `(item_id, timestamp)`; skipped when the
    /// item already has a price row with the same base and 24h prices.
    PriceData(NewPriceData<'a>),
    /// Upsert into `trader_` by `id`.
    Trader(NewTrader<'a>),
    /// Upsert into `trader_price_data_` by `(item_id, trader_id, timestamp)`.
    TraderPriceData(NewTraderPriceData<'a>),
}

/// A write, its texts as character sequences.
pub enum WriteView {
    Item {
        id: Seq<char>,
        icon_link: Option<Seq<char>>,
        wiki_link: Option<Seq<char>>,
        image_link: Option<Seq<char>>,
    },
    PriceData { item_id: Seq<char>, timestamp: i64, base_price: i64, avg_24h_price: Option<i64> },
    Trader { id: Seq<char>, name: Seq<char> },
    TraderPriceData { item_id: Seq<char>, trader_id: Seq<char>, timestamp: i64, price: i64 },
}

/// The text of an optional string.
pub open spec fn opt_text(s: Option<String>) -> Option<Seq<char>> {
    match s {
        Some(t) => Some(t@),
        None => None,
    }
}

/// The text of an optional string slice.
pub open spec fn opt_str_text(s: Option<&str>) -> Option<Seq<char>> {
    match s {
        Some(t) => Some(t@),
        None => None,
    }
}

impl<'a> View for Write<'a> {
    type V = WriteView;

    open spec fn view(&self) -> WriteView {
        match self {
            Write::Item(i) => WriteView::Item {
                id: i.id@,
                icon_link: opt_str_text(i.icon_link),
                wiki_link: opt_str_text(i.wiki_link),
                image_link: opt_str_text(i.image_link),
            },
            Write::PriceData(p) => WriteView::PriceData {
                item_id: p.item_id@,
                timestamp: p.timestamp,
                base_price: p.base_price,
                avg_24h_price: p.avg_24h_price,
            },
            Write::Trader(t) => WriteView::Trader { id: t.id@, name: t.name@ },
            Write::TraderPriceData(t) => WriteView::TraderPriceData {
                item_id: t.item_id@,
                trader_id: t.trader_id@,
                timestamp: t.timestamp,
                price: t.price,
            },
        }
    }
}

/// The writes for what one trader pays for an item: the trader, then the price.
pub open spec fn trader_price_writes(item_id: Seq<char>, tp: TraderPrice, timestamp: i64) -> Seq<
    WriteView,
> {
    seq![
        WriteView::Trader { id: tp.trader.id@, name: tp.trader.name@ },
        WriteView::TraderPriceData {
            item_id,
            trader_id: tp.trader.id@,
            timestamp,
            price: tp.price,
        },
    ]
}

/// The writes for the trader prices `tps` of an item.
pub open spec fn trader_prices_writes(item_id: Seq<char>, tps: Seq<TraderPrice>, timestamp: i64) -> Seq<
    WriteView,
>
    decreases tps.len(),
{
    if tps.len() == 0 {
        Seq::empty()
    } else {
        trader_prices_writes(item_id, tps.drop_last(), timestamp) + trader_price_writes(
            item_id,
            tps.last(),
            timestamp,
        )
    }
}

/// The writes for one fetched item: the item, its price, then each of its
/// trader prices. Every price row carries `timestamp`.
pub open spec fn item_writes(item: Item, timestamp: i64) -> Seq<WriteView> {
    seq![
        WriteView::Item {
            id: item.id@,
            icon_link: opt_text(item.icon_link),
            wiki_link: opt_text(item.wiki_link),
            image_link: opt_text(item.image_link),
        },
        WriteView::PriceData {
            item_id: item.id@,
            timestamp,
            base_price: item.base_price,
            avg_24h_price: item.avg_24h_price,
        },
    ] + trader_prices_writes(item.id@, item.trader_prices@, timestamp)
}

/// The writes for the fetched items, item after item.
pub open spec fn items_writes(items: Seq<Item>, timestamp: i64) -> Seq<WriteView>
    decreases items.len(),
{
    if items.len() == 0 {
        Seq::empty()
    } else {
        items_writes(items.drop_last(), timestamp) + item_writes(items.last(), timestamp)
    }
}

/// Whether a price row is written: it is skipped where the item already has
/// a price row with the same base and 24h prices.
pub fn price_data_write<'a>(row: NewPriceData<'a>, equal_row_exists: bool) -> (w: Option<
    NewPriceData<'a>,
>)
    ensures
        equal_row_exists ==> w is None,
        !equal_row_exists ==> w == Some(row),
{
    if equal_row_exists {
        None
    } else {
        Some(row)
    }
}

/// The timestamp that the price rows of an item carry: the time of the
/// fetch, whether or not the API says when the item was updated.
pub fn price_timestamp(item: &Item, timestamp_fallback: i64) -> (t: i64)
    ensures
        t == timestamp_fallback,
{
    match &item.updated {
        Some(_) => timestamp_fallback,
        None => timestamp_fallback,
    }
}

fn as_deref(s: &Option<String>) -> (r: Option<&str>)
    ensures
        opt_str_text(r) == opt_text(*s),
{
    match s {
        Some(t) => Some(t.as_str()),
        None => None,
    }
}

/// What the service writes to the database for freshly fetched `items`,
/// in order, all in one transaction.
pub fn update_writes<'a>(items: &'a Vec<Item>, timestamp_fallback: i64) -> (w: Vec<Write<'a>>)
    ensures
        w@.map_values(|x: Write<'a>| x@) == items_writes(items@, timestamp_fallback),
{
    let mut writes: Vec<Write<'a>> = Vec::new();
    let mut i: usize = 0;
    while i < items.len()
        invariant
            i <= items@.len(),
            writes@.map_values(|x: Write<'a>| x@) == items_writes(
                items@.take(i as int),
                timestamp_fallback,
            ),
        decreases items@.len() - i,
    {
        let item = &items[i];
        let timestamp = price_timestamp(item, timestamp_fallback);
        let ghost before = writes@.map_values(|x: Write<'a>| x@);
        writes.push(
            Write::Item(
                NewItem {
                    id: item.id.as_str(),
                    icon_link: as_deref(&item.icon_link),
                    wiki_link: as_deref(&item.wiki_link),
                    image_link: as_deref(&item.image_link),
                },
            ),
        );
        writes.push(
            Write::PriceData(
                NewPriceData {
                    item_id: item.id.as_str(),
                    timestamp,
                    base_price: item.base_price,
                    avg_24h_price: item.avg_24h_price,
                },
            ),
        );
        let ghost head = seq![
            WriteView::Item {
                id: item.id@,
                icon_link: opt_text(item.icon_link),
                wiki_link: opt_text(item.wiki_link),
                image_link: opt_text(item.image_link),
            },
            WriteView::PriceData {
                item_id: item.id@,
                timestamp,
                base_price: item.base_price,
                avg_24h_price: item.avg_24h_price,
            },
        ];
        assert(writes@.map_values(|x: Write<'a>| x@) =~= before + head);
        let mut j: usize = 0;
        while j < item.trader_prices.len()
            invariant
                j <= item.trader_prices@.len(),
                item == &items@[i as int],
                timestamp == timestamp_fallback,
                writes@.map_values(|x: Write<'a>| x@) == before + head + trader_prices_writes(
                    item.id@,
                    item.trader_prices@.take(j as int),
                    timestamp,
                ),
            decreases item.trader_prices@.len() - j,
        {
            let tp = &item.trader_prices[j];
            let ghost prev = writes@.map_values(|x: Write<'a>| x@);
            writes.push(Write::Trader(NewTrader { id: tp.trader.id.as_str(), name: tp.trader.name.as_str() }));
            writes.push(
                Write::TraderPriceData(
                    NewTraderPriceData {
                        item_id: item.id.as_str(),
                        trader_id: tp.trader.id.as_str(),
                        timestamp,
                        price: tp.price,
                    },
                ),
            );
            assert(item.trader_prices@.take(j + 1).drop_last() =~= item.trader_prices@.take(
                j as int,
            ));
            assert(writes@.map_values(|x: Write<'a>| x@) =~= prev + trader_price_writes(
                item.id@,
                *tp,
                timestamp,
            ));
            j = j + 1;
        }
        assert(item.trader_prices@.take(j as int) =~= item.trader_prices@);
        assert(items@.take(i + 1).drop_last() =~= items@.take(i as int));
        i = i + 1;
    }
    assert(items@.take(i as int) =~= items@);
    writes
}

/// The languages whose market data the server serves.
pub fn languages() -> (v: Vec<&'static str>)
    ensures
        v@.len() == 1,
        v@[0]@ == "en"@,
{
    let mut v: Vec<&'static str> = Vec::new();
    v.push("en");
    v
}

proof fn lemma_mod_step(k: int, m: int)
    requires
        k >= 0,
        m > 0,
    ensures
        (k + 1) % m == if k % m + 1 == m {
            0
        } else {
            k % m + 1
        },
{
    let q = k / m;
    let r = k % m;
    assert(k == q * m + r && 0 <= r < m) by (nonlinear_arith)
        requires
            m > 0,
            q == k / m,
            r == k % m,
    ;
    if r + 1 == m {
        assert(k + 1 == (q + 1) * m + 0) by (nonlinear_arith)
            requires
                k == q * m + r,
                r + 1 == m,
        ;
        vstd::arithmetic::div_mod::lemma_fundamental_div_mod_converse(k + 1, m, q + 1, 0);
    } else {
        vstd::arithmetic::div_mod::lemma_fundamental_div_mod_converse(k + 1, m, q, r + 1);
    }
}

/// The languages, taken in turn and starting over after the last.
pub struct LanguageCycle {
    languages: Vec<&'static str>,
    /// The index of the next language, and how many have been taken.
    position: (usize, Ghost<nat>),
}

impl LanguageCycle {
    #[verifier::type_invariant]
    spec fn inv(&self) -> bool {
        &&& self.languages@.len() > 0
        &&& self.position.0 == self.position.1@ % (self.languages@.len() as nat)
    }

    /// The languages of the cycle.
    pub closed spec fn languages(&self) -> Seq<&'static str> {
        self.languages@
    }

    /// How many languages have been taken so far.
    pub closed spec fn taken(&self) -> nat {
        self.position.1@
    }

    /// A cycle over `languages`, none taken yet.
    pub fn new(languages: Vec<&'static str>) -> (c: LanguageCycle)
        requires
            languages@.len() > 0,
        ensures
            c.languages() == languages@,
            c.taken() == 0,
    {
        proof {
            vstd::arithmetic::div_mod::lemma_small_mod(0, languages@.len());
        }
        LanguageCycle { languages, position: (0, Ghost(0)) }
    }

    /// The next language: the `k`-th call (from 0) gives language
    /// `k % n` of the `n` languages.
    pub fn next(&mut self) -> (lang: &'static str)
        ensures
            final(self).languages() == old(self).languages(),
            final(self).taken() == old(self).taken() + 1,
            lang == old(self).languages()[(old(self).taken() % old(self).languages().len()) as int],
    {
        proof {
            use_type_invariant(&*self);
        }
        let n = self.languages.len();
        let current = self.position.0;
        let lang = self.languages[current];
        let next = if current + 1 == n {
            0
        } else {
            current + 1
        };
        proof {
            let k = self.position.1@;
            let m = n as nat;
            lemma_mod_step(k as int, m as int);
        }
        self.position = (next, Ghost(self.position.1@ + 1));
        lang
    }
}

/// What the service does after a round of fetching and writing.
#[derive(Debug, Clone, Copy, PartialEq, Eq, Structural)]
pub enum AfterFetch {
    /// The round succeeded: refresh the served data from the database, then
    /// wait this many seconds.
    RefreshThenWait(u64),
    /// The round failed: wait this many seconds and try again.
    Wait(u64),
}

/// After a successful round the served data is refreshed and the service
/// waits ten minutes; after a failed one it waits one minute.
pub fn after_fetch(succeeded: bool) -> (a: AfterFetch)
    ensures
        succeeded ==> a == AfterFetch::RefreshThenWait(600),
        !succeeded ==> a == AfterFetch::Wait(60),
{
    if succeeded {
        AfterFetch::RefreshThenWait(60 * 10)
    } else {
        AfterFetch::Wait(60)
    }
}

/// Round `k` (from 0) of the service: the language it fetches, taken in
/// turn from `languages`, and what follows its fetch. This is what
/// `LanguageCycle::next` and `after_fetch` give, call after call.
pub open spec fn round(languages: Seq<&'static str>, k: nat, succeeded: bool) -> (
    &'static str,
    AfterFetch,
) {
    (
        languages[(k % languages.len()) as int],
        if succeeded {
            AfterFetch::RefreshThenWait(600)
        } else {
            AfterFetch::Wait(60)
        },
    )
}

/// The service comes back to each language every `n` rounds, `n` being the
/// number of languages; what follows a fetch depends only on its outcome.
pub proof fn law_rounds_repeat(languages: Seq<&'static str>, k: nat, succeeded: bool)
    requires
        languages.len() > 0,
    ensures
        round(languages, k + languages.len(), succeeded) == round(languages, k, succeeded),
        round(languages, k, true).1 == AfterFetch::RefreshThenWait(600),
        round(languages, k, false).1 == AfterFetch::Wait(60),
{
    vstd::arithmetic::div_mod::lemma_mod_add_multiples_vanish(k as int, languages.len() as int);
    assert((languages.len() + k) as nat == k + languages.len());
}

proof fn lemma_items_writes_prefix(items: Seq<Item>, n: int, timestamp: i64)
    requires
        0 <= n <= items.len(),
    ensures
        items_writes(items.take(n), timestamp).len() <= items_writes(items, timestamp).len(),
        items_writes(items, timestamp).subrange(
            0,
            items_writes(items.take(n), timestamp).len() as int,
        ) == items_writes(items.take(n), timestamp),
    decreases items.len(),
{
    if n == items.len() {
        assert(items.take(n) =~= items);
        assert(items_writes(items, timestamp).subrange(
            0,
            items_writes(items, timestamp).len() as int,
        ) =~= items_writes(items, timestamp));
    } else {
        let d = items.drop_last();
        assert(d.take(n) =~= items.take(n));
        lemma_items_writes_prefix(d, n, timestamp);
        let a = items_writes(d, timestamp);
        let p = items_writes(items.take(n), timestamp);
        assert(items_writes(items, timestamp) == a + item_writes(items.last(), timestamp));
        assert((a + item_writes(items.last(), timestamp)).subrange(0, p.len() as int)
            =~= a.subrange(0, p.len() as int));
    }
}

proof fn lemma_trader_writes_prefix(item_id: Seq<char>, tps: Seq<TraderPrice>, n: int, timestamp: i64)
    requires
        0 <= n <= tps.len(),
    ensures
        trader_prices_writes(item_id, tps.take(n), timestamp).len() == 2 * n,
        trader_prices_writes(item_id, tps, timestamp).len() == 2 * tps.len(),
        trader_prices_writes(item_id, tps, timestamp).subrange(0, 2 * n)
            == trader_prices_writes(item_id, tps.take(n), timestamp),
    decreases tps.len(),
{
    if n == tps.len() {
        assert(tps.take(n) =~= tps);
        lemma_trader_writes_len(item_id, tps, timestamp);
        assert(trader_prices_writes(item_id, tps, timestamp).subrange(0, 2 * n)
            =~= trader_prices_writes(item_id, tps, timestamp));
    } else {
        let d = tps.drop_last();
        assert(d.take(n) =~= tps.take(n));
        lemma_trader_writes_prefix(item_id, d, n, timestamp);
        let a = trader_prices_writes(item_id, d, timestamp);
        assert((a + trader_price_writes(item_id, tps.last(), timestamp)).subrange(0, 2 * n)
            =~= a.subrange(0, 2 * n));
    }
}

proof fn lemma_trader_writes_len(item_id: Seq<char>, tps: Seq<TraderPrice>, timestamp: i64)
    ensures
        trader_prices_writes(item_id, tps, timestamp).len() == 2 * tps.len(),
    decreases tps.len(),
{
    if tps.len() > 0 {
        lemma_trader_writes_len(item_id, tps.drop_last(), timestamp);
    }
}

/// Where the writes of item `i` begin, and that they stand there whole.
proof fn lemma_item_writes_at(items: Seq<Item>, timestamp: i64, i: int) -> (k: int)
    requires
        0 <= i < items.len(),
    ensures
        0 <= k,
        k + item_writes(items[i], timestamp).len() <= items_writes(items, timestamp).len(),
        forall|m: int|
            0 <= m < item_writes(items[i], timestamp).len() ==> items_writes(items, timestamp)[k
                + m] == #[trigger] item_writes(items[i], timestamp)[m],
{
    let w = items_writes(items, timestamp);
    let item = items[i];
    let before = items_writes(items.take(i), timestamp);
    let k = before.len() as int;
    assert(items.take(i + 1).drop_last() =~= items.take(i));
    assert(items.take(i + 1).last() == item);
    let upto = items_writes(items.take(i + 1), timestamp);
    let iw = item_writes(item, timestamp);
    assert(upto == before + iw);
    lemma_items_writes_prefix(items, i + 1, timestamp);
    assert forall|m: int| 0 <= m < iw.len() implies w[k + m] == #[trigger] iw[m] by {
        assert(w.subrange(0, upto.len() as int)[k + m] == upto[k + m]);
    }
    k
}

/// The writes for the `j`-th trader price of an item: the trader's row, then
/// its price for the item.
proof fn lemma_trader_writes_at(item_id: Seq<char>, tps: Seq<TraderPrice>, timestamp: i64, j: int)
    requires
        0 <= j < tps.len(),
    ensures
        trader_prices_writes(item_id, tps, timestamp).len() == 2 * tps.len(),
        trader_prices_writes(item_id, tps, timestamp)[2 * j] == (WriteView::Trader {
            id: tps[j].trader.id@,
            name: tps[j].trader.name@,
        }),
        trader_prices_writes(item_id, tps, timestamp)[2 * j + 1] == (WriteView::TraderPriceData {
            item_id,
            trader_id: tps[j].trader.id@,
            timestamp,
            price: tps[j].price,
        }),
{
    let tw = trader_prices_writes(item_id, tps, timestamp);
    lemma_trader_writes_prefix(item_id, tps, j + 1, timestamp);
    assert(tps.take(j + 1).drop_last() =~= tps.take(j));
    assert(tps.take(j + 1).last() == tps[j]);
    lemma_trader_writes_len(item_id, tps.take(j), timestamp);
    assert(tw[2 * j] == tw.subrange(0, 2 * j + 2)[2 * j]);
    assert(tw[2 * j + 1] == tw.subrange(0, 2 * j + 2)[2 * j + 1]);
}

/// Every fetched item is written with its own fields: somewhere in the
/// writes stands its `item_` row (its id and its three links), right after
/// it its price row (its id, the fetch time, its base and 24h prices), and
/// then, for each of its trader prices in turn, the trader's row and the
/// trader's price for the item at the fetch time.
pub proof fn law_each_item_written(items: Seq<Item>, timestamp: i64, i: int)
    requires
        0 <= i < items.len(),
    ensures
        exists|k: int|
            #![trigger items_writes(items, timestamp)[k]]
            {
                let w = items_writes(items, timestamp);
                let item = items[i];
                &&& 0 <= k
                &&& k + 2 + 2 * item.trader_prices@.len() <= w.len()
                &&& w[k] == WriteView::Item {
                    id: item.id@,
                    icon_link: opt_text(item.icon_link),
                    wiki_link: opt_text(item.wiki_link),
                    image_link: opt_text(item.image_link),
                }
                &&& w[k + 1] == WriteView::PriceData {
                    item_id: item.id@,
                    timestamp,
                    base_price: item.base_price,
                    avg_24h_price: item.avg_24h_price,
                }
                &&& forall|j: int|
                    0 <= j < item.trader_prices@.len() ==> {
                        &&& #[trigger] w[k + 2 + 2 * j] == WriteView::Trader {
                            id: item.trader_prices@[j].trader.id@,
                            name: item.trader_prices@[j].trader.name@,
                        }
                        &&& w[k + 3 + 2 * j] == WriteView::TraderPriceData {
                            item_id: item.id@,
                            trader_id: item.trader_prices@[j].trader.id@,
                            timestamp,
                            price: item.trader_prices@[j].price,
                        }
                    }
            },
{
    let w = items_writes(items, timestamp);
    let item = items[i];
    let tps = item.trader_prices@;
    let iw = item_writes(item, timestamp);
    let k = lemma_item_writes_at(items, timestamp, i);
    lemma_trader_writes_len(item.id@, tps, timestamp);
    assert(iw.len() == 2 + 2 * tps.len());
    assert(iw[0] == (WriteView::Item {
        id: item.id@,
        icon_link: opt_text(item.icon_link),
        wiki_link: opt_text(item.wiki_link),
        image_link: opt_text(item.image_link),
    }));
    assert(iw[1] == (WriteView::PriceData {
        item_id: item.id@,
        timestamp,
        base_price: item.base_price,
        avg_24h_price: item.avg_24h_price,
    }));
    assert(w[k + 0] == iw[0]);
    assert(w[k + 1] == iw[1]);
    assert forall|j: int| 0 <= j < tps.len() implies {
        &&& #[trigger] w[k + 2 + 2 * j] == WriteView::Trader {
            id: tps[j].trader.id@,
            name: tps[j].trader.name@,
        }
        &&& w[k + 3 + 2 * j] == WriteView::TraderPriceData {
            item_id: item.id@,
            trader_id: tps[j].trader.id@,
            timestamp,
            price: tps[j].price,
        }
    } by {
        lemma_trader_writes_at(item.id@, tps, timestamp, j);
        assert(iw[2 + 2 * j] == trader_prices_writes(item.id@, tps, timestamp)[2 * j]);
        assert(iw[3 + 2 * j] == trader_prices_writes(item.id@, tps, timestamp)[2 * j + 1]);
        assert(w[k + (2 + 2 * j)] == iw[2 + 2 * j]);
        assert(w[k + (3 + 2 * j)] == iw[3 + 2 * j]);
    }
}

} // verus!
