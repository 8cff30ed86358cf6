//! The payment cache: snapshots of payments kept under their ids for a
//! limited time.

use vstd::prelude::*;
use crate::model::{Payment, PaymentView, Timestamp};
use crate::text_map::TextMap;

verus! {

/// A payment snapshot with the instant at which it was cached and the
/// number of seconds for which it stays valid.
pub struct CachedPayment {
    pub payment: Payment,
    pub cached_at: Timestamp,
    pub ttl_seconds: i64,
}

/// What a cache entry holds, as plain values.
pub struct CachedPaymentView {
    pub payment: PaymentView,
    pub cached_at: Timestamp,
    pub ttl_seconds: int,
}

impl CachedPaymentView {
    /// Whether the entry may still be served at an instant: the time since
    /// it was cached does not exceed its time to live.
    pub open spec fn fresh_at(self, now: Timestamp) -> bool {
        now.instant() - self.cached_at.instant() <= self.ttl_seconds * 1_000_000_000
    }
}

impl View for CachedPayment {
    type V = CachedPaymentView;

    open spec fn view(&self) -> CachedPaymentView {
        CachedPaymentView {
            payment: self.payment@,
            cached_at: self.cached_at,
            ttl_seconds: self.ttl_seconds as int,
        }
    }
}

impl CachedPayment {
    /// An entry for a payment cached at the instant `now`.
    pub fn new(payment: Payment, ttl_seconds: i64, now: Timestamp) -> (r: CachedPayment)
        ensures
            r@ == (CachedPaymentView { payment: payment@, cached_at: now, ttl_seconds: ttl_seconds as int }),
    {
        CachedPayment { payment, cached_at: now, ttl_seconds }
    }

    /// Whether the entry has outlived its time to live at the instant `now`.
    pub fn is_expired(&self, now: Timestamp) -> (r: bool)
        ensures
            r == !self@.fresh_at(now),
    {
        let elapsed: i128 = (now.secs as i128 - self.cached_at.secs as i128) * 1_000_000_000 + (
        now.nanos as i128 - self.cached_at.nanos as i128);
        let limit: i128 = self.ttl_seconds as i128 * 1_000_000_000;
        elapsed > limit
    }
}

/// What a look into the cache finds under an id.
pub enum Lookup {
    /// A snapshot that may still be served.
    Fresh(Payment),
    /// An entry that has outlived its time to live.
    Stale,
    /// No entry.
    Missing,
}

/// The cache, keyed by payment id.
pub struct PaymentCache {
    entries: TextMap<CachedPayment>,
}

impl View for PaymentCache {
    type V = Map<Seq<char>, CachedPaymentView>;

    /// The cache as a map from payment id to entry.
    closed spec fn view(&self) -> Map<Seq<char>, CachedPaymentView> {
        self.entries@.map_values(|e: CachedPayment| e@)
    }
}

/// What a cache serves under an id at an instant: the snapshot there, if
/// there is one and it is still fresh.
pub open spec fn served(cache: Map<Seq<char>, CachedPaymentView>, id: Seq<char>, now: Timestamp) -> Option<
    PaymentView,
> {
    if cache.contains_key(id) && cache[id].fresh_at(now) {
        Some(cache[id].payment)
    } else {
        None
    }
}

impl PaymentCache {
    /// Whether the cache is well formed.
    pub closed spec fn wf(&self) -> bool {
        self.entries.wf()
    }

    /// An empty cache.
    pub fn new() -> (r: PaymentCache)
        ensures
            r.wf(),
            r@ == Map::<Seq<char>, CachedPaymentView>::empty(),
    {
        let r = PaymentCache { entries: TextMap::new() };
        assert(r@ =~= Map::<Seq<char>, CachedPaymentView>::empty());
        r
    }

    /// The number of entries, stale ones included.
    pub fn len(&self) -> (r: usize)
        requires
            self.wf(),
        ensures
            r == self@.dom().len(),
    {
        assert(self@.dom() =~= self.entries@.dom());
        self.entries.len()
    }

    /// Looks under an id without changing the cache.
    pub fn lookup(&self, id: &str, now: Timestamp) -> (r: Lookup)
        requires
            self.wf(),
        ensures
            match r {
                Lookup::Fresh(p) => served(self@, id@, now) == Some(p@),
                Lookup::Stale => self@.contains_key(id@) && !self@[id@].fresh_at(now),
                Lookup::Missing => !self@.contains_key(id@),
            },
    {
        match self.entries.get(id) {
            None => Lookup::Missing,
            Some(entry) => {
                if entry.is_expired(now) {
                    Lookup::Stale
                } else {
                    Lookup::Fresh(entry.payment.clone())
                }
            },
        }
    }

    /// Serves the snapshot under an id if it is still fresh. A stale entry
    /// counts as a miss and is evicted; nothing else changes.
    pub fn get(&mut self, id: &str, now: Timestamp) -> (r: Option<Payment>)
        requires
            old(self).wf(),
        ensures
            final(self).wf(),
            match r {
                Some(p) => served(old(self)@, id@, now) == Some(p@),
                None => served(old(self)@, id@, now) is None,
            },
            r is Some ==> final(self)@ == old(self)@,
            r is None ==> final(self)@ == old(self)@.remove(id@),
    {
        match self.lookup(id, now) {
            Lookup::Fresh(p) => Some(p),
            Lookup::Stale => {
                self.invalidate(id);
                None
            },
            Lookup::Missing => {
                assert(self@ =~= self@.remove(id@));
                None
            },
        }
    }

    /// Stores a snapshot under an id with a time to live, replacing whatever
    /// was there.
    pub fn put(&mut self, id: &str, payment: Payment, ttl_seconds: i64, now: Timestamp)
        requires
            old(self).wf(),
        ensures
            final(self).wf(),
            final(self)@ == old(self)@.insert(
                id@,
                CachedPaymentView { payment: payment@, cached_at: now, ttl_seconds: ttl_seconds as int },
            ),
    {
        let entry = CachedPayment::new(payment, ttl_seconds, now);
        let ghost before = self@;
        self.entries.insert(id.to_string(), entry);
        assert(self@ =~= before.insert(id@, entry@));
    }

    /// Removes the entry under an id, if there is one.
    pub fn invalidate(&mut self, id: &str)
        requires
            old(self).wf(),
        ensures
            final(self).wf(),
            final(self)@ == old(self)@.remove(id@),
    {
        let ghost before = self@;
        let _ = self.entries.remove(id);
        assert(self@ =~= before.remove(id@));
    }

    /// Drops every entry.
    pub fn clear(&mut self)
        ensures
            final(self).wf(),
            final(self)@ == Map::<Seq<char>, CachedPaymentView>::empty(),
    {
        self.entries.clear();
        assert(self@ =~= Map::<Seq<char>, CachedPaymentView>::empty());
    }
}

/// After a snapshot is stored under an id, the cache serves that snapshot
/// or nothing under the id, whatever it held before and whenever it is
/// asked; after an id is invalidated or the cache is cleared, it serves
/// nothing under the id. A snapshot from before a write is therefore never
/// served after it.
pub proof fn lemma_no_stale_read(
    cache: Map<Seq<char>, CachedPaymentView>,
    id: Seq<char>,
    entry: CachedPaymentView,
    now: Timestamp,
)
    ensures
        served(cache.insert(id, entry), id, now) is Some ==> served(cache.insert(id, entry), id, now)
            == Some(entry.payment),
        served(cache.remove(id), id, now) is None,
        served(Map::<Seq<char>, CachedPaymentView>::empty(), id, now) is None,
{
}

/// A write under one id leaves what the cache serves under every other id
/// as it was.
pub proof fn lemma_other_ids_untouched(
    cache: Map<Seq<char>, CachedPaymentView>,
    id: Seq<char>,
    other: Seq<char>,
    entry: CachedPaymentView,
    now: Timestamp,
)
    requires
        other != id,
    ensures
        served(cache.insert(id, entry), other, now) == served(cache, other, now),
        served(cache.remove(id), other, now) == served(cache, other, now),
{
}

} // verus!
