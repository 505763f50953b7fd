use vstd::prelude::*;
use vstd::string::*;

verus! {

/// The price of a plain coffee, in cents.
pub const SIMPLE_COFFEE_CENTS: u64 = 200;

/// What milk adds to the price, in cents.
pub const MILK_CENTS: u64 = 50;

/// What sugar adds to the price, in cents.
pub const SUGAR_CENTS: u64 = 20;

/// A coffee with a price in cents and a description.
pub trait Coffee {
    spec fn price(&self) -> nat;

    spec fn described(&self) -> Seq<char>;

    fn cost(&self) -> (r: u64)
        requires
            self.price() <= u64::MAX,
        ensures
            r == self.price(),
    ;

    fn description(&self) -> (r: String)
        ensures
            r@ == self.described(),
    ;
}

pub struct SimpleCoffee;

impl Coffee for SimpleCoffee {
    open spec fn price(&self) -> nat {
        SIMPLE_COFFEE_CENTS as nat
    }

    open spec fn described(&self) -> Seq<char> {
        "Simple coffee"@
    }

    fn cost(&self) -> (r: u64) {
        SIMPLE_COFFEE_CENTS
    }

    fn description(&self) -> (r: String) {
        String::from_str("Simple coffee")
    }
}

/// Adds milk to the coffee it wraps.
pub struct MilkDecorator<C: Coffee> {
    coffee: C,
}

impl<C: Coffee> MilkDecorator<C> {
    pub closed spec fn inner(&self) -> C {
        self.coffee
    }

    pub fn new(coffee: C) -> (r: Self)
        ensures
            r.inner() == coffee,
    {
        MilkDecorator { coffee }
    }
}

impl<C: Coffee> Coffee for MilkDecorator<C> {
    open spec fn price(&self) -> nat {
        self.inner().price() + MILK_CENTS as nat
    }

    open spec fn described(&self) -> Seq<char> {
        self.inner().described() + ", milk"@
    }

    fn cost(&self) -> (r: u64) {
        self.coffee.cost() + MILK_CENTS
    }

    fn description(&self) -> (r: String) {
        let mut s = self.coffee.description();
        s.append(", milk");
        s
    }
}

/// Adds sugar to the coffee it wraps.
pub struct SugarDecorator<C: Coffee> {
    coffee: C,
}

impl<C: Coffee> SugarDecorator<C> {
    pub closed spec fn inner(&self) -> C {
        self.coffee
    }

    pub fn new(coffee: C) -> (r: Self)
        ensures
            r.inner() == coffee,
    {
        SugarDecorator { coffee }
    }
}

impl<C: Coffee> Coffee for SugarDecorator<C> {
    open spec fn price(&self) -> nat {
        self.inner().price() + SUGAR_CENTS as nat
    }

    open spec fn described(&self) -> Seq<char> {
        self.inner().described() + ", sugar"@
    }

    fn cost(&self) -> (r: u64) {
        self.coffee.cost() + SUGAR_CENTS
    }

    fn description(&self) -> (r: String) {
        let mut s = self.coffee.description();
        s.append(", sugar");
        s
    }
}

} // verus!
