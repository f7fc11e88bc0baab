//! The general item listing and the selectors that locate its fields on a page.
use vstd::prelude::*;
use crate::models::item::{Availability, Category, Condition, Meeting};

verus! {

/// An item offered for sale.
#[derive(Debug)]
pub struct Item {
    image: Vec<String>,
    title: String,
    price: u32,
    category: Category,
    condition: Condition,
    description: String,
    availability: Availability,
    address: String,
    meeting: Vec<Meeting>,
}

/// The contents of an [`Item`]; each option is given by its label.
pub struct ItemView {
    pub image: Seq<Seq<char>>,
    pub title: Seq<char>,
    pub price: u32,
    pub category: Seq<char>,
    pub condition: Seq<char>,
    pub description: Seq<char>,
    pub availability: Seq<char>,
    pub address: Seq<char>,
    pub meeting: Seq<Seq<char>>,
}

/// The labels of a list of hand-over options.
pub open spec fn meeting_labels(m: Seq<Meeting>) -> Seq<Seq<char>> {
    m.map_values(|x: Meeting| x@)
}

impl View for Item {
    type V = ItemView;

    closed spec fn view(&self) -> ItemView {
        ItemView {
            image: self.image.deep_view(),
            title: self.title@,
            price: self.price,
            category: self.category@,
            condition: self.condition@,
            description: self.description@,
            availability: self.availability@,
            address: self.address@,
            meeting: meeting_labels(self.meeting@),
        }
    }
}

impl Clone for Item {
    /// A copy with the same contents.
    fn clone(&self) -> (r: Self)
        ensures
            r@ == self@,
    {
        let image = self.image.clone();
        assert(image.deep_view() =~= self.image.deep_view());
        let meeting = self.meeting.clone();
        assert(meeting_labels(meeting@) =~= meeting_labels(self.meeting@)) by {
            assert forall|i: int| 0 <= i < meeting@.len() implies meeting@[i]@ == self.meeting@[i]@ by {
                assert(cloned::<Meeting>(self.meeting[i], meeting[i]));
            }
        }
        Item {
            image,
            title: self.title.clone(),
            price: self.price,
            category: self.category.clone(),
            condition: self.condition.clone(),
            description: self.description.clone(),
            availability: self.availability.clone(),
            address: self.address.clone(),
            meeting,
        }
    }
}

impl Item {
    pub fn new(
        image: Vec<String>,
        title: String,
        price: u32,
        category: Category,
        condition: Condition,
        description: String,
        availability: Availability,
        address: String,
        meeting: Vec<Meeting>,
    ) -> (r: Self)
        ensures
            r@.image == image.deep_view(),
            r@.title == title@,
            r@.price == price,
            r@.category == category@,
            r@.condition == condition@,
            r@.description == description@,
            r@.availability == availability@,
            r@.address == address@,
            r@.meeting == meeting_labels(meeting@),
    {
        Self { image, title, price, category, condition, description, availability, address, meeting }
    }

    pub fn image(&self) -> (r: &Vec<String>)
        ensures
            r.deep_view() == self@.image,
    {
        &self.image
    }

    pub fn title(&self) -> (r: &String)
        ensures
            r@ == self@.title,
    {
        &self.title
    }

    pub fn price(&self) -> (r: u32)
        ensures
            r == self@.price,
    {
        self.price
    }

    pub fn category(&self) -> (r: &Category)
        ensures
            r@ == self@.category,
    {
        &self.category
    }

    pub fn condition(&self) -> (r: &Condition)
        ensures
            r@ == self@.condition,
    {
        &self.condition
    }

    pub fn description(&self) -> (r: &String)
        ensures
            r@ == self@.description,
    {
        &self.description
    }

    pub fn availability(&self) -> (r: &Availability)
        ensures
            r@ == self@.availability,
    {
        &self.availability
    }

    pub fn address(&self) -> (r: &String)
        ensures
            r@ == self@.address,
    {
        &self.address
    }

    pub fn meeting(&self) -> (r: &Vec<Meeting>)
        ensures
            meeting_labels(r@) == self@.meeting,
    {
        &self.meeting
    }
}

/// The XPath selectors of the fields of the item form.
#[derive(Clone, Debug)]
pub struct ItemXPath {
    pub image: String,
    pub title: String,
    pub price: String,
    pub category: String,
    pub condition: String,
    pub description: String,
    pub availability: String,
    pub address: String,
    pub meeting: String,
}

impl ItemXPath {
    pub fn new(
        image: String,
        title: String,
        price: String,
        category: String,
        condition: String,
        description: String,
        availability: String,
        address: String,
        meeting: String,
    ) -> (r: Self)
        ensures
            r.image == image,
            r.title == title,
            r.price == price,
            r.category == category,
            r.condition == condition,
            r.description == description,
            r.availability == availability,
            r.address == address,
            r.meeting == meeting,
    {
        Self { image, title, price, category, condition, description, availability, address, meeting }
    }
}

} // verus!
