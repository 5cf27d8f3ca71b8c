//! The price cache: the last fetched asset price and ledger fee, and the flag
//! that says whether anything was fetched yet.

use vstd::prelude::*;

verus! {

/// Seconds between two refreshes of the cache.
pub const AR_FETCH_INTERVAL_SECONDS: u64 = 120;

/// Bit pattern of the double 0.004, the asset price held before the first fetch.
pub const FALLBACK_PRICE_BITS: u64 = 0x3f70624dd2f1a9fc;

/// Ledger fee, in minor units, held before the first fetch.
pub const FALLBACK_BASE_PRICE_IN_WINSTON: i64 = 185021129;

/// Bit pattern of the double 0.004, the ledger fee in dollars that stands while
/// the cache is not initialised.
pub const FALLBACK_BASE_USD_FEE_BITS: u64 = 0x3f70624dd2f1a9fc;

/// Bit pattern of the double 12.5, the value in dollars of one token.
pub const WVM_USD_PRICE_BITS: u64 = 0x4029000000000000;

/// Minor units in one unit of the ledger's asset.
pub const WINSTON_PER_AR: i64 = 1_000_000_000_000;

/// What one refresh brought: the asset price as a bit pattern and the ledger
/// fee, each absent where its fetch failed.
pub type Fetched = (Option<u64>, Option<i64>);

/// What the ledger fee in dollars is computed from.
#[derive(Clone, Copy, Debug, PartialEq, Eq, Structural)]
pub enum FeeBasis {
    /// Nothing was fetched yet: the fee is this fixed double, given as its bit
    /// pattern.
    Fallback { usd_fee_bits: u64 },
    /// The cached ledger fee in minor units, and the bit pattern of the cached
    /// asset price in dollars.
    Cached { base_fee_in_winston: i64, price_bits: u64 },
}

/// One consistent reading of the cache.
#[derive(Clone, Copy, Debug)]
pub struct PriceContainer {
    /// Bit pattern of the asset's price in dollars.
    pub price_bits: u64,
    /// Base storage fee of the ledger, in minor units.
    pub base_price_in_winston: i64,
    /// Whether a fetched value was ever written.
    pub init: bool,
}

impl PriceContainer {
    /// The cache as it stands before any fetch.
    pub open spec fn fallback() -> PriceContainer {
        PriceContainer {
            price_bits: FALLBACK_PRICE_BITS,
            base_price_in_winston: FALLBACK_BASE_PRICE_IN_WINSTON,
            init: false,
        }
    }

    /// The cache after one write of whatever a refresh brought.
    pub open spec fn applied(self, price: Option<u64>, fee: Option<i64>) -> PriceContainer {
        PriceContainer {
            price_bits: match price {
                Some(p) => p,
                None => self.price_bits,
            },
            base_price_in_winston: match fee {
                Some(f) => f,
                None => self.base_price_in_winston,
            },
            init: self.init || price is Some || fee is Some,
        }
    }

    /// The cache after a run of refreshes, oldest first.
    pub open spec fn replayed(self, fetches: Seq<Fetched>) -> PriceContainer
        decreases fetches.len(),
    {
        if fetches.len() == 0 {
            self
        } else {
            self.replayed(fetches.drop_last()).applied(fetches.last().0, fetches.last().1)
        }
    }

    /// What the fee computation reads: the fixed fallback fee while nothing was
    /// written, whatever the cache holds, then the cached pair.
    pub open spec fn basis(self) -> FeeBasis {
        if self.init {
            FeeBasis::Cached {
                base_fee_in_winston: self.base_price_in_winston,
                price_bits: self.price_bits,
            }
        } else {
            FeeBasis::Fallback { usd_fee_bits: FALLBACK_BASE_USD_FEE_BITS }
        }
    }

    pub fn new() -> (cache: PriceContainer)
        ensures
            cache == PriceContainer::fallback(),
    {
        PriceContainer {
            price_bits: FALLBACK_PRICE_BITS,
            base_price_in_winston: FALLBACK_BASE_PRICE_IN_WINSTON,
            init: false,
        }
    }

    /// A point-in-time copy of the three fields.
    pub fn read(&self) -> (snapshot: PriceContainer)
        ensures
            snapshot == *self,
    {
        *self
    }

    /// Writes a fetched asset price.
    pub fn update(&mut self, new_price_bits: u64)
        ensures
            *final(self) == old(self).applied(Some(new_price_bits), None),
    {
        self.init = true;
        self.price_bits = new_price_bits;
    }

    /// Writes a fetched ledger fee.
    pub fn update_base_winston(&mut self, new_winston_base_fee: i64)
        ensures
            *final(self) == old(self).applied(None, Some(new_winston_base_fee)),
    {
        self.init = true;
        self.base_price_in_winston = new_winston_base_fee;
    }

    /// Writes whichever of the two values a refresh brought, in one step.
    pub fn apply(&mut self, price: Option<u64>, fee: Option<i64>)
        ensures
            *final(self) == old(self).applied(price, fee),
    {
        if let Some(p) = price {
            self.update(p);
        }
        if let Some(f) = fee {
            self.update_base_winston(f);
        }
    }

    /// What the ledger fee in dollars is to be computed from, as the cache
    /// stands.
    pub fn fee_basis(&self) -> (r: FeeBasis)
        ensures
            r == self.basis(),
    {
        if self.init {
            FeeBasis::Cached {
                base_fee_in_winston: self.base_price_in_winston,
                price_bits: self.price_bits,
            }
        } else {
            FeeBasis::Fallback { usd_fee_bits: FALLBACK_BASE_USD_FEE_BITS }
        }
    }
}

/// Before any write the cache holds the fallback pair, is not initialised, and
/// has the fee computed from the fixed fallback fee.
pub proof fn lemma_fallback_before_first_write()
    ensures
        !PriceContainer::fallback().init,
        PriceContainer::fallback().price_bits == FALLBACK_PRICE_BITS,
        PriceContainer::fallback().base_price_in_winston == FALLBACK_BASE_PRICE_IN_WINSTON,
        PriceContainer::fallback().basis() == (FeeBasis::Fallback {
            usd_fee_bits: FALLBACK_BASE_USD_FEE_BITS,
        }),
{
}

/// While the cache is not initialised the fee is computed from the fixed
/// fallback fee, whatever the two cached fields hold; once it is, from them.
pub proof fn lemma_basis_follows_init(cache: PriceContainer)
    ensures
        !cache.init ==> cache.basis() == (FeeBasis::Fallback {
            usd_fee_bits: FALLBACK_BASE_USD_FEE_BITS,
        }),
        cache.init ==> cache.basis() == (FeeBasis::Cached {
            base_fee_in_winston: cache.base_price_in_winston,
            price_bits: cache.price_bits,
        }),
{
}

/// A write of an asset price alone initialises the cache, replaces the price
/// and keeps the ledger fee.
pub proof fn lemma_price_write(cache: PriceContainer, price: u64)
    ensures
        cache.applied(Some(price), None).init,
        cache.applied(Some(price), None).price_bits == price,
        cache.applied(Some(price), None).base_price_in_winston == cache.base_price_in_winston,
{
}

/// A write of a ledger fee alone initialises the cache, replaces the fee and
/// keeps the asset price.
pub proof fn lemma_fee_write(cache: PriceContainer, fee: i64)
    ensures
        cache.applied(None, Some(fee)).init,
        cache.applied(None, Some(fee)).base_price_in_winston == fee,
        cache.applied(None, Some(fee)).price_bits == cache.price_bits,
{
}

/// A write of both values is one step: the cache after it holds both new
/// values, and it equals the two single writes made in either order, so no
/// reading between them exists to see one new value beside one old.
pub proof fn lemma_pair_written_together(cache: PriceContainer, price: u64, fee: i64)
    ensures
        cache.applied(Some(price), Some(fee)) == (PriceContainer {
            price_bits: price,
            base_price_in_winston: fee,
            init: true,
        }),
        cache.applied(Some(price), Some(fee)) == cache.applied(Some(price), None).applied(
            None,
            Some(fee),
        ),
        cache.applied(Some(price), Some(fee)) == cache.applied(None, Some(fee)).applied(
            Some(price),
            None,
        ),
{
}

/// A refresh that brought nothing leaves the cache as it was.
pub proof fn lemma_failed_refresh_keeps_cache(cache: PriceContainer)
    ensures
        cache.applied(None, None) == cache,
{
}

/// An initialised cache stays initialised under every write.
pub proof fn lemma_init_never_reverts(cache: PriceContainer, price: Option<u64>, fee: Option<i64>)
    requires
        cache.init,
    ensures
        cache.applied(price, fee).init,
{
}

/// After any run of refreshes the cache is initialised exactly if it was so
/// before or one of the refreshes brought a value.
pub proof fn lemma_init_after_replay(cache: PriceContainer, fetches: Seq<Fetched>)
    ensures
        cache.replayed(fetches).init <==> (cache.init || exists|i: int|
            0 <= i < fetches.len() && (#[trigger] fetches[i].0 is Some || fetches[i].1 is Some)),
    decreases fetches.len(),
{
    if fetches.len() > 0 {
        let earlier = fetches.drop_last();
        lemma_init_after_replay(cache, earlier);
        let k = fetches.len() - 1;
        if fetches[k].0 is Some || fetches[k].1 is Some {
        } else if cache.replayed(earlier).init && !cache.init {
            let i = choose|i: int|
                0 <= i < earlier.len() && (#[trigger] earlier[i].0 is Some || earlier[i].1 is Some);
            assert(fetches[i] == earlier[i]);
        } else if !cache.replayed(earlier).init {
            assert forall|i: int| 0 <= i < fetches.len() implies !(#[trigger] fetches[i].0 is Some
                || fetches[i].1 is Some) by {
                if i < k {
                    assert(fetches[i] == earlier[i]);
                }
            }
        }
    }
}

/// Once a run of refreshes has initialised the cache, every longer run has too.
pub proof fn lemma_init_kept_along_replay(cache: PriceContainer, fetches: Seq<Fetched>, n: int)
    requires
        0 <= n <= fetches.len(),
        cache.replayed(fetches.take(n)).init,
    ensures
        cache.replayed(fetches).init,
    decreases fetches.len() - n,
{
    if n < fetches.len() {
        assert(fetches.take(n + 1).drop_last() == fetches.take(n));
        lemma_init_kept_along_replay(cache, fetches, n + 1);
    } else {
        assert(fetches.take(n) == fetches);
    }
}

/// After any run of refreshes the cache holds the asset price that the latest
/// successful price fetch brought, and the price it had before the run where
/// none succeeded.
pub proof fn lemma_price_is_latest_fetched(cache: PriceContainer, fetches: Seq<Fetched>)
    ensures
        forall|i: int|
            0 <= i < fetches.len() && (#[trigger] fetches[i]).0 is Some && (forall|j: int|
                i < j < fetches.len() ==> (#[trigger] fetches[j]).0 is None)
                ==> cache.replayed(fetches).price_bits == fetches[i].0.unwrap(),
        (forall|j: int| 0 <= j < fetches.len() ==> (#[trigger] fetches[j]).0 is None)
            ==> cache.replayed(fetches).price_bits == cache.price_bits,
    decreases fetches.len(),
{
    if fetches.len() > 0 {
        let earlier = fetches.drop_last();
        let k = fetches.len() - 1;
        lemma_price_is_latest_fetched(cache, earlier);
        assert forall|i: int|
            0 <= i < fetches.len() && (#[trigger] fetches[i]).0 is Some && (forall|j: int|
                i < j < fetches.len() ==> (#[trigger] fetches[j]).0 is None)
                implies cache.replayed(fetches).price_bits == fetches[i].0.unwrap() by {
            if i < k {
                assert(earlier[i] == fetches[i]);
                assert forall|j: int| i < j < earlier.len() implies (#[trigger] earlier[j]).0
                    is None by {
                    assert(earlier[j] == fetches[j]);
                }
            }
        }
        if forall|j: int| 0 <= j < fetches.len() ==> (#[trigger] fetches[j]).0 is None {
            assert forall|j: int| 0 <= j < earlier.len() implies (#[trigger] earlier[j]).0
                is None by {
                assert(earlier[j] == fetches[j]);
            }
        }
    }
}

/// After any run of refreshes the cache holds the ledger fee that the latest
/// successful fee fetch brought, and the fee it had before the run where none
/// succeeded.
pub proof fn lemma_fee_is_latest_fetched(cache: PriceContainer, fetches: Seq<Fetched>)
    ensures
        forall|i: int|
            0 <= i < fetches.len() && (#[trigger] fetches[i]).1 is Some && (forall|j: int|
                i < j < fetches.len() ==> (#[trigger] fetches[j]).1 is None)
                ==> cache.replayed(fetches).base_price_in_winston == fetches[i].1.unwrap(),
        (forall|j: int| 0 <= j < fetches.len() ==> (#[trigger] fetches[j]).1 is None)
            ==> cache.replayed(fetches).base_price_in_winston == cache.base_price_in_winston,
    decreases fetches.len(),
{
    if fetches.len() > 0 {
        let earlier = fetches.drop_last();
        let k = fetches.len() - 1;
        lemma_fee_is_latest_fetched(cache, earlier);
        assert forall|i: int|
            0 <= i < fetches.len() && (#[trigger] fetches[i]).1 is Some && (forall|j: int|
                i < j < fetches.len() ==> (#[trigger] fetches[j]).1 is None)
                implies cache.replayed(fetches).base_price_in_winston
                == fetches[i].1.unwrap() by {
            if i < k {
                assert(earlier[i] == fetches[i]);
                assert forall|j: int| i < j < earlier.len() implies (#[trigger] earlier[j]).1
                    is None by {
                    assert(earlier[j] == fetches[j]);
                }
            }
        }
        if forall|j: int| 0 <= j < fetches.len() ==> (#[trigger] fetches[j]).1 is None {
            assert forall|j: int| 0 <= j < earlier.len() implies (#[trigger] earlier[j]).1
                is None by {
                assert(earlier[j] == fetches[j]);
            }
        }
    }
}

} // verus!
