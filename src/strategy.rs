use vstd::prelude::*;
use vstd::string::*;
use crate::text::{money, money_of};

verus! {

/// The receipt for paying `cents` by `method`.
pub open spec fn receipt(cents: u64, method: Seq<char>) -> Seq<char> {
    "Paid $"@ + money_of(cents as nat) + " using "@ + method
}

/// A way of paying an amount given in cents.
pub trait PaymentStrategy {
    spec fn method(&self) -> Seq<char>;

    fn pay(&self, amount: u64) -> (r: String)
        ensures
            r@ == receipt(amount, self.method()),
    ;
}

fn receipt_text(amount: u64, method: &str) -> (r: String)
    ensures
        r@ == receipt(amount, method@),
{
    let mut s = String::from_str("Paid $");
    s.append(money(amount).as_str());
    s.append(" using ");
    s.append(method);
    s
}

pub struct CreditCardPayment;

pub struct PayPalPayment;

pub struct BitcoinPayment;

impl PaymentStrategy for CreditCardPayment {
    open spec fn method(&self) -> Seq<char> {
        "Credit Card"@
    }

    fn pay(&self, amount: u64) -> (r: String) {
        receipt_text(amount, "Credit Card")
    }
}

impl PaymentStrategy for PayPalPayment {
    open spec fn method(&self) -> Seq<char> {
        "PayPal"@
    }

    fn pay(&self, amount: u64) -> (r: String) {
        receipt_text(amount, "PayPal")
    }
}

impl PaymentStrategy for BitcoinPayment {
    open spec fn method(&self) -> Seq<char> {
        "Bitcoin"@
    }

    fn pay(&self, amount: u64) -> (r: String) {
        receipt_text(amount, "Bitcoin")
    }
}

/// Pays through whichever strategy it was given.
pub struct PaymentProcessor<S: PaymentStrategy> {
    strategy: S,
}

impl<S: PaymentStrategy> PaymentProcessor<S> {
    pub closed spec fn strategy_spec(&self) -> S {
        self.strategy
    }

    pub fn new(strategy: S) -> (r: Self)
        ensures
            r.strategy_spec() == strategy,
    {
        PaymentProcessor { strategy }
    }

    /// Pays `amount` cents.
    pub fn process_payment(&self, amount: u64) -> (r: String)
        ensures
            r@ == receipt(amount, self.strategy_spec().method()),
    {
        self.strategy.pay(amount)
    }
}

} // verus!
