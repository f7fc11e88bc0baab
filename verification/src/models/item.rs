//! Options of the general item listing form. Each one is the label of the
//! option as the form shows it.
use vstd::prelude::*;

verus! {

/// The item category, by its label.
#[derive(Debug)]
pub struct Category {
    label: String,
}

/// The state of repair of an item, by its label.
#[derive(Debug)]
pub struct Condition {
    label: String,
}

/// Whether the item is in stock, by its label.
#[derive(Debug)]
pub struct Availability {
    label: String,
}

/// A way of handing the item over (pickup, delivery...), by its label.
#[derive(Debug)]
pub struct Meeting {
    label: String,
}

impl View for Category {
    type V = Seq<char>;

    closed spec fn view(&self) -> Seq<char> {
        self.label@
    }
}

impl View for Condition {
    type V = Seq<char>;

    closed spec fn view(&self) -> Seq<char> {
        self.label@
    }
}

impl View for Availability {
    type V = Seq<char>;

    closed spec fn view(&self) -> Seq<char> {
        self.label@
    }
}

impl View for Meeting {
    type V = Seq<char>;

    closed spec fn view(&self) -> Seq<char> {
        self.label@
    }
}

impl Clone for Category {
    fn clone(&self) -> (r: Self)
        ensures
            r@ == self@,
    {
        Category { label: self.label.clone() }
    }
}

impl Category {
    pub fn new(label: String) -> (r: Self)
        ensures
            r@ == label@,
    {
        Category { label }
    }

    pub fn label(&self) -> (r: &String)
        ensures
            r@ == self@,
    {
        &self.label
    }
}

impl Clone for Condition {
    fn clone(&self) -> (r: Self)
        ensures
            r@ == self@,
    {
        Condition { label: self.label.clone() }
    }
}

impl Condition {
    pub fn new(label: String) -> (r: Self)
        ensures
            r@ == label@,
    {
        Condition { label }
    }

    pub fn label(&self) -> (r: &String)
        ensures
            r@ == self@,
    {
        &self.label
    }
}

impl Clone for Availability {
    fn clone(&self) -> (r: Self)
        ensures
            r@ == self@,
    {
        Availability { label: self.label.clone() }
    }
}

impl Availability {
    pub fn new(label: String) -> (r: Self)
        ensures
            r@ == label@,
    {
        Availability { label }
    }

    pub fn label(&self) -> (r: &String)
        ensures
            r@ == self@,
    {
        &self.label
    }
}

impl Clone for Meeting {
    fn clone(&self) -> (r: Self)
        ensures
            r@ == self@,
    {
        Meeting { label: self.label.clone() }
    }
}

impl Meeting {
    pub fn new(label: String) -> (r: Self)
        ensures
            r@ == label@,
    {
        Meeting { label }
    }

    pub fn label(&self) -> (r: &String)
        ensures
            r@ == self@,
    {
        &self.label
    }
}

} // verus!
