//! Feed events, the symbol allow-list, and the processing of one event.

use crate::decimal::{mid_of, mid_price, published_of, published_value, Price};
use crate::store::{Key, MetricStore};
use vstd::prelude::*;

verus! {

/// One message received from the upstream feed.
pub enum FeedEvent {
    /// New best bid and best ask for a symbol.
    PriceUpdate { symbol: String, bid: Price, ask: Price },
    /// The upstream asks for a keepalive reply.
    KeepaliveRequest,
    /// Any other message, kept as text for the log.
    Unrecognized { raw: String },
}

/// What processing an event amounted to.
#[derive(Clone, Copy, Debug, PartialEq, Eq, Structural)]
pub enum Disposition {
    /// A mid-price was written into the store.
    Published,
    /// The symbol is not on the allow-list; nothing was written.
    Filtered,
    /// A keepalive reply must be sent before the next event is read.
    AcknowledgeKeepalive,
    /// The message was not understood and was dropped.
    Discarded,
}

/// A symbol passes an allow-list when the list is empty or names it.
pub open spec fn admits(allowed: Seq<Seq<char>>, symbol: Seq<char>) -> bool {
    allowed.len() == 0 || allowed.contains(symbol)
}

/// The set of symbols to publish; an empty filter admits every symbol.
pub struct SymbolFilter {
    symbols: Vec<String>,
}

impl View for SymbolFilter {
    type V = Seq<Seq<char>>;

    closed spec fn view(&self) -> Seq<Seq<char>> {
        self.symbols@.map_values(|s: String| s@)
    }
}

impl SymbolFilter {
    /// A filter that admits exactly `symbols`, or everything when it is empty.
    pub fn new(symbols: Vec<String>) -> (r: SymbolFilter)
        ensures
            r@ == symbols@.map_values(|s: String| s@),
    {
        SymbolFilter { symbols }
    }

    /// Whether events for `symbol` are processed.
    pub fn admits(&self, symbol: &String) -> (r: bool)
        ensures
            r == admits(self@, symbol@),
    {
        if self.symbols.len() == 0 {
            return true;
        }
        let mut i: usize = 0;
        while i < self.symbols.len()
            invariant
                i <= self.symbols@.len(),
                self@ == self.symbols@.map_values(|s: String| s@),
                forall|j: int| 0 <= j < i ==> self@[j] != symbol@,
            decreases self.symbols@.len() - i,
        {
            if self.symbols[i] == *symbol {
                assert(self@[i as int] == symbol@);
                return true;
            }
            i = i + 1;
        }
        assert(!self@.contains(symbol@));
        false
    }
}

/// An event is well formed when its prices are valid decimals.
pub open spec fn event_wf(e: FeedEvent) -> bool {
    match e {
        FeedEvent::PriceUpdate { bid, ask, .. } => bid.wf() && ask.wf(),
        _ => true,
    }
}

/// Store contents after a price update whose computed mid-price is `mid`.
pub open spec fn after_update(
    store: Map<Key, Price>,
    source: Seq<char>,
    allowed: Seq<Seq<char>>,
    symbol: Seq<char>,
    mid: Option<Price>,
) -> Map<Key, Price> {
    if admits(allowed, symbol) {
        store.insert((source, symbol), published_of(mid))
    } else {
        store
    }
}

/// Store contents after processing `e`.
pub open spec fn after_event(
    store: Map<Key, Price>,
    source: Seq<char>,
    allowed: Seq<Seq<char>>,
    e: FeedEvent,
) -> Map<Key, Price> {
    match e {
        FeedEvent::PriceUpdate { symbol, bid, ask } => after_update(
            store,
            source,
            allowed,
            symbol@,
            mid_of(bid, ask),
        ),
        _ => store,
    }
}

/// What processing `e` amounts to.
pub open spec fn disposition_of(allowed: Seq<Seq<char>>, e: FeedEvent) -> Disposition {
    match e {
        FeedEvent::PriceUpdate { symbol, .. } => if admits(allowed, symbol@) {
            Disposition::Published
        } else {
            Disposition::Filtered
        },
        FeedEvent::KeepaliveRequest => Disposition::AcknowledgeKeepalive,
        FeedEvent::Unrecognized { .. } => Disposition::Discarded,
    }
}

/// Filters feed events and publishes their mid-prices under one source name.
pub struct EventProcessor {
    pub source: String,
    pub filter: SymbolFilter,
}

impl EventProcessor {
    pub fn new(source: String, filter: SymbolFilter) -> (r: EventProcessor)
        ensures
            r.source == source,
            r.filter@ == filter@,
    {
        EventProcessor { source, filter }
    }

    /// Publishes the already computed mid-price of `symbol`, or zero where
    /// none could be computed, if the filter admits the symbol.
    pub fn publish_mid(&self, symbol: &String, mid: Option<Price>, store: &mut MetricStore) -> (r:
        Disposition)
        requires
            old(store).wf(),
            mid matches Some(m) ==> m.wf(),
        ensures
            final(store).wf(),
            final(store)@ == after_update(old(store)@, self.source@, self.filter@, symbol@, mid),
            r == (if admits(self.filter@, symbol@) {
                Disposition::Published
            } else {
                Disposition::Filtered
            }),
    {
        if self.filter.admits(symbol) {
            let v = published_value(mid);
            store.set(&self.source, symbol, v);
            Disposition::Published
        } else {
            Disposition::Filtered
        }
    }

    /// Handles one feed event: price updates for admitted symbols are
    /// published, keepalive requests ask for a reply, the rest is dropped.
    pub fn process(&self, event: &FeedEvent, store: &mut MetricStore) -> (r: Disposition)
        requires
            old(store).wf(),
            event_wf(*event),
        ensures
            final(store).wf(),
            final(store)@ == after_event(old(store)@, self.source@, self.filter@, *event),
            r == disposition_of(self.filter@, *event),
    {
        match event {
            FeedEvent::PriceUpdate { symbol, bid, ask } => {
                let mid = mid_price(*bid, *ask);
                self.publish_mid(symbol, mid, store)
            },
            FeedEvent::KeepaliveRequest => Disposition::AcknowledgeKeepalive,
            FeedEvent::Unrecognized { .. } => Disposition::Discarded,
        }
    }
}

/// A price update for an admitted symbol publishes the exact decimal
/// mid-price `(bid + ask) / 2` under (source, symbol).
pub proof fn lemma_update_publishes_mid(
    store: Map<Key, Price>,
    source: Seq<char>,
    allowed: Seq<Seq<char>>,
    symbol: String,
    bid: Price,
    ask: Price,
)
    requires
        admits(allowed, symbol@),
        mid_of(bid, ask) is Some,
    ensures
        after_event(store, source, allowed, FeedEvent::PriceUpdate { symbol, bid, ask }).contains_key(
            (source, symbol@),
        ),
        after_event(store, source, allowed, FeedEvent::PriceUpdate { symbol, bid, ask })[(
        source,
        symbol@,
        )] == mid_of(bid, ask)->Some_0,
        disposition_of(allowed, FeedEvent::PriceUpdate { symbol, bid, ask })
            == Disposition::Published,
{
}

/// A price update for a symbol outside a non-empty filter creates or changes
/// no entry.
pub proof fn lemma_filtered_update_untouched(
    store: Map<Key, Price>,
    source: Seq<char>,
    allowed: Seq<Seq<char>>,
    symbol: String,
    bid: Price,
    ask: Price,
)
    requires
        allowed.len() > 0,
        !allowed.contains(symbol@),
    ensures
        after_event(store, source, allowed, FeedEvent::PriceUpdate { symbol, bid, ask }) == store,
        disposition_of(allowed, FeedEvent::PriceUpdate { symbol, bid, ask })
            == Disposition::Filtered,
{
}

/// Processing the same event twice leaves the store as processing it once.
pub proof fn lemma_process_idempotent(
    store: Map<Key, Price>,
    source: Seq<char>,
    allowed: Seq<Seq<char>>,
    e: FeedEvent,
)
    ensures
        after_event(after_event(store, source, allowed, e), source, allowed, e) == after_event(
            store,
            source,
            allowed,
            e,
        ),
{
    match e {
        FeedEvent::PriceUpdate { symbol, bid, ask } => {
            let once = after_event(store, source, allowed, e);
            assert(after_event(once, source, allowed, e) =~= once);
        },
        _ => {},
    }
}

/// A mid-price that cannot be computed is published as zero: the update
/// still counts as published, it is not a processing failure.
pub proof fn lemma_unrepresentable_publishes_zero(
    store: Map<Key, Price>,
    source: Seq<char>,
    allowed: Seq<Seq<char>>,
    symbol: String,
    bid: Price,
    ask: Price,
)
    requires
        admits(allowed, symbol@),
        mid_of(bid, ask) is None,
    ensures
        after_event(store, source, allowed, FeedEvent::PriceUpdate { symbol, bid, ask })[(
        source,
        symbol@,
        )] == Price::spec_zero(),
        disposition_of(allowed, FeedEvent::PriceUpdate { symbol, bid, ask })
            == Disposition::Published,
{
}

} // verus!
