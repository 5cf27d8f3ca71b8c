//! The fee change notifier: whether it runs, what it does at a tick, and the
//! callback that it hands the new gas price to.

use std::sync::Arc;
use vstd::prelude::*;
use crate::price_cache::AR_FETCH_INTERVAL_SECONDS;

verus! {

/// Seconds between two ticks of the notifier.
pub const NOTIFIER_INTERVAL_SECONDS: u64 = AR_FETCH_INTERVAL_SECONDS + 10;

/// A registered callback, shared between its owner and the notifier. It takes
/// the new gas price and says whether it went well.
pub struct UpdatePriceCb<F> {
    pub cb: Arc<F>,
}

impl<F> UpdatePriceCb<F> {
    /// What a callback shows of itself when printed: its kind, not its code.
    pub fn describe(&self) -> (text: String)
        ensures
            text@ == "Function pointer"@,
    {
        "Function pointer".to_owned()
    }
}

impl<F> Clone for UpdatePriceCb<F> {
    /// Another handle on the same callback.
    fn clone(&self) -> (r: Self)
        ensures
            r.cb == self.cb,
    {
        UpdatePriceCb { cb: self.cb.clone() }
    }
}

/// Whether the notifier does any work.
#[derive(Clone, Copy, Debug, PartialEq, Eq, Structural)]
pub enum NotifierState {
    /// No callback was registered: nothing runs.
    Idle,
    /// A callback was registered and is called at every tick.
    Running,
}

/// What one tick of the notifier did.
#[derive(Clone, Copy, Debug, PartialEq, Eq, Structural)]
pub enum Delivery {
    /// No callback is registered: none was called.
    NotRegistered,
    /// The callback was called and returned success.
    Accepted,
    /// The callback was called and returned failure, which is passed over.
    Failed,
}

/// The notifier: the callback that was registered when it was made, if any.
pub struct FeeNotifier<F> {
    pub base_fee_cb: Option<UpdatePriceCb<F>>,
}

/// What a tick did, from what the callback returned; `None` stands for a tick
/// without a callback.
pub open spec fn delivery_of(outcome: Option<Result<(), ()>>) -> Delivery {
    match outcome {
        None => Delivery::NotRegistered,
        Some(Ok(_)) => Delivery::Accepted,
        Some(Err(_)) => Delivery::Failed,
    }
}

/// Names what a tick did, whatever the callback returned: a failure is a
/// delivery like any other, and stops nothing.
pub fn classify(outcome: Option<Result<(), ()>>) -> (d: Delivery)
    ensures
        d == delivery_of(outcome),
{
    match outcome {
        None => Delivery::NotRegistered,
        Some(Ok(_)) => Delivery::Accepted,
        Some(Err(_)) => Delivery::Failed,
    }
}

impl<F: Fn(i64) -> Result<(), ()>> FeeNotifier<F> {
    /// Idle without a callback, running with one.
    pub open spec fn state(&self) -> NotifierState {
        if self.base_fee_cb is Some {
            NotifierState::Running
        } else {
            NotifierState::Idle
        }
    }

    /// Whether the registered callback, if any, may be called with `gas_price`.
    pub open spec fn can_take(&self, gas_price: i64) -> bool {
        self.base_fee_cb matches Some(c) ==> call_requires(*c.cb, (gas_price,))
    }

    /// Whether `d` is what a call of the registered callback with `gas_price`
    /// may give; without a callback, whether `d` says so.
    pub open spec fn delivered(&self, gas_price: i64, d: Delivery) -> bool {
        match (self.base_fee_cb, d) {
            (None, _) => d == Delivery::NotRegistered,
            (Some(_), Delivery::NotRegistered) => false,
            (Some(c), Delivery::Accepted) => call_ensures(*c.cb, (gas_price,), Ok(())),
            (Some(c), Delivery::Failed) => call_ensures(*c.cb, (gas_price,), Err(())),
        }
    }

    /// A notifier for the callback given, or an idle one for `None`.
    pub fn new(base_fee_cb: Option<F>) -> (notifier: Self)
        ensures
            match base_fee_cb {
                None => notifier.base_fee_cb is None,
                Some(func) => notifier.base_fee_cb is Some && *notifier.base_fee_cb.unwrap().cb
                    == func,
            },
    {
        FeeNotifier {
            base_fee_cb: match base_fee_cb {
                None => None,
                Some(func) => Some(UpdatePriceCb { cb: Arc::new(func) }),
            },
        }
    }

    pub fn current_state(&self) -> (s: NotifierState)
        ensures
            s == self.state(),
    {
        if self.base_fee_cb.is_some() {
            NotifierState::Running
        } else {
            NotifierState::Idle
        }
    }

    /// One tick: calls the registered callback once with `gas_price`, and says
    /// what came of it. The notifier itself is left as it was.
    pub fn tick(&self, gas_price: i64) -> (d: Delivery)
        requires
            self.can_take(gas_price),
        ensures
            self.delivered(gas_price, d),
    {
        match &self.base_fee_cb {
            None => classify(None),
            Some(c) => {
                let result = (c.cb)(gas_price);
                proof {
                    match result {
                        Ok(u) => {
                            assert(u == ());
                        },
                        Err(e) => {
                            assert(e == ());
                        },
                    }
                }
                classify(Some(result))
            },
        }
    }
}

} // verus!
