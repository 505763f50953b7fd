use vstd::prelude::*;
use vstd::string::*;
use crate::text::{signed_decimal, signed_digits_of};

verus! {

/// Something a [`Visitor`] can be applied to.
pub trait Element {
    /// The element's kind and value.
    spec fn content(&self) -> Content;

    spec fn name_spec(&self) -> Seq<char>;

    /// Hands this element to the visitor's method for its kind.
    fn accept<V: Visitor + ?Sized>(&self, visitor: &V) -> (r: String)
        ensures
            r@ == report(visitor, self.content()),
    ;

    fn get_name(&self) -> (r: &str)
        ensures
            r@ == self.name_spec(),
    ;
}

/// What an element holds, by kind.
pub enum Content {
    A(i32),
    B(Seq<char>),
}

/// What `visitor` reports on an element holding `c`.
pub open spec fn report<V: Visitor + ?Sized>(visitor: &V, c: Content) -> Seq<char> {
    match c {
        Content::A(v) => visitor.on_a(v),
        Content::B(v) => visitor.on_b(v),
    }
}

/// An operation over the element kinds, kept apart from the elements.
pub trait Visitor {
    /// The report on an [`ElementA`] holding `value`.
    spec fn on_a(&self, value: i32) -> Seq<char>;

    /// The report on an [`ElementB`] holding `value`.
    spec fn on_b(&self, value: Seq<char>) -> Seq<char>;

    fn visit_element_a(&self, element: &ElementA) -> (r: String)
        ensures
            r@ == self.on_a(element.value),
    ;

    fn visit_element_b(&self, element: &ElementB) -> (r: String)
        ensures
            r@ == self.on_b(element.value@),
    ;
}

/// An element holding a number.
pub struct ElementA {
    pub value: i32,
}

impl ElementA {
    pub fn new(value: i32) -> (r: Self)
        ensures
            r.value == value,
    {
        ElementA { value }
    }
}

impl Element for ElementA {
    open spec fn content(&self) -> Content {
        Content::A(self.value)
    }

    open spec fn name_spec(&self) -> Seq<char> {
        "ElementA"@
    }

    fn accept<V: Visitor + ?Sized>(&self, visitor: &V) -> (r: String) {
        visitor.visit_element_a(self)
    }

    fn get_name(&self) -> (r: &str) {
        "ElementA"
    }
}

/// An element holding text.
pub struct ElementB {
    pub value: String,
}

impl ElementB {
    pub fn new(value: &str) -> (r: Self)
        ensures
            r.value@ == value@,
    {
        ElementB { value: String::from_str(value) }
    }
}

impl Element for ElementB {
    open spec fn content(&self) -> Content {
        Content::B(self.value@)
    }

    open spec fn name_spec(&self) -> Seq<char> {
        "ElementB"@
    }

    fn accept<V: Visitor + ?Sized>(&self, visitor: &V) -> (r: String) {
        visitor.visit_element_b(self)
    }

    fn get_name(&self) -> (r: &str) {
        "ElementB"
    }
}

/// Describes each element with its value.
pub struct ConcreteVisitor;

impl Visitor for ConcreteVisitor {
    open spec fn on_a(&self, value: i32) -> Seq<char> {
        "Visiting ElementA with value: "@ + signed_digits_of(value as int)
    }

    open spec fn on_b(&self, value: Seq<char>) -> Seq<char> {
        "Visiting ElementB with value: "@ + value
    }

    fn visit_element_a(&self, element: &ElementA) -> (r: String) {
        let mut s = String::from_str("Visiting ElementA with value: ");
        s.append(signed_decimal(element.value as i64).as_str());
        s
    }

    fn visit_element_b(&self, element: &ElementB) -> (r: String) {
        let mut s = String::from_str("Visiting ElementB with value: ");
        s.append(element.value.as_str());
        s
    }
}

/// Announces each element it counts; its count is read with [`CountVisitor::get_count`].
pub struct CountVisitor {
    count: usize,
}

impl CountVisitor {
    pub closed spec fn count_spec(&self) -> usize {
        self.count
    }

    pub fn new() -> (r: Self)
        ensures
            r.count_spec() == 0,
    {
        CountVisitor { count: 0 }
    }

    pub fn get_count(&self) -> (r: usize)
        ensures
            r == self.count_spec(),
    {
        self.count
    }
}

impl Visitor for CountVisitor {
    open spec fn on_a(&self, value: i32) -> Seq<char> {
        "Counting ElementA..."@
    }

    open spec fn on_b(&self, value: Seq<char>) -> Seq<char> {
        "Counting ElementB..."@
    }

    fn visit_element_a(&self, element: &ElementA) -> (r: String) {
        String::from_str("Counting ElementA...")
    }

    fn visit_element_b(&self, element: &ElementB) -> (r: String) {
        String::from_str("Counting ElementB...")
    }
}

} // verus!
