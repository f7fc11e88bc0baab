//! The property listing.
use vstd::prelude::*;
use crate::models::property::{Category, Model};

verus! {

/// A home offered for sale or for rent.
#[derive(Debug)]
pub struct Property {
    image: Vec<String>,
    model: Model,
    category: Category,
    bedroom: u32,
    bathroom: u32,
    price: u32,
    address: String,
    description: String,
    meter: u32,
    tax: u32,
    condominium: u32,
    parking: u32,
}

/// The contents of a [`Property`].
pub struct PropertyView {
    pub image: Seq<Seq<char>>,
    pub model: Model,
    pub category: Category,
    pub bedroom: u32,
    pub bathroom: u32,
    pub price: u32,
    pub address: Seq<char>,
    pub description: Seq<char>,
    pub meter: u32,
    pub tax: u32,
    pub condominium: u32,
    pub parking: u32,
}

impl View for Property {
    type V = PropertyView;

    closed spec fn view(&self) -> PropertyView {
        PropertyView {
            image: self.image.deep_view(),
            model: self.model,
            category: self.category,
            bedroom: self.bedroom,
            bathroom: self.bathroom,
            price: self.price,
            address: self.address@,
            description: self.description@,
            meter: self.meter,
            tax: self.tax,
            condominium: self.condominium,
            parking: self.parking,
        }
    }
}

impl Clone for Property {
    /// A copy with the same contents.
    fn clone(&self) -> (r: Self)
        ensures
            r@ == self@,
    {
        let image = self.image.clone();
        assert(image.deep_view() =~= self.image.deep_view());
        Property {
            image,
            model: self.model,
            category: self.category,
            bedroom: self.bedroom,
            bathroom: self.bathroom,
            price: self.price,
            address: self.address.clone(),
            description: self.description.clone(),
            meter: self.meter,
            tax: self.tax,
            condominium: self.condominium,
            parking: self.parking,
        }
    }
}

impl Property {
    pub fn new(
        image: Vec<String>,
        model: Model,
        category: Category,
        bedroom: u32,
        bathroom: u32,
        price: u32,
        address: String,
        description: String,
        meter: u32,
        tax: u32,
        condominium: u32,
        parking: u32,
    ) -> (r: Self)
        ensures
            r@.image == image.deep_view(),
            r@.model == model,
            r@.category == category,
            r@.bedroom == bedroom,
            r@.bathroom == bathroom,
            r@.price == price,
            r@.address == address@,
            r@.description == description@,
            r@.meter == meter,
            r@.tax == tax,
            r@.condominium == condominium,
            r@.parking == parking,
    {
        Self { image, model, category, bedroom, bathroom, price, address, description, meter, tax, condominium, parking }
    }

    pub fn image(&self) -> (r: &Vec<String>)
        ensures
            r.deep_view() == self@.image,
    {
        &self.image
    }

    pub fn model(&self) -> (r: &Model)
        ensures
            *r == self@.model,
    {
        &self.model
    }

    pub fn category(&self) -> (r: &Category)
        ensures
            *r == self@.category,
    {
        &self.category
    }

    pub fn bedroom(&self) -> (r: u32)
        ensures
            r == self@.bedroom,
    {
        self.bedroom
    }

    pub fn bathroom(&self) -> (r: u32)
        ensures
            r == self@.bathroom,
    {
        self.bathroom
    }

    pub fn price(&self) -> (r: u32)
        ensures
            r == self@.price,
    {
        self.price
    }

    pub fn address(&self) -> (r: &String)
        ensures
            r@ == self@.address,
    {
        &self.address
    }

    pub fn description(&self) -> (r: &String)
        ensures
            r@ == self@.description,
    {
        &self.description
    }

    pub fn meter(&self) -> (r: u32)
        ensures
            r == self@.meter,
    {
        self.meter
    }

    pub fn tax(&self) -> (r: u32)
        ensures
            r == self@.tax,
    {
        self.tax
    }

    pub fn condominium(&self) -> (r: u32)
        ensures
            r == self@.condominium,
    {
        self.condominium
    }

    pub fn parking(&self) -> (r: u32)
        ensures
            r == self@.parking,
    {
        self.parking
    }

    /// Replaces the image list (remote addresses become local file paths once
    /// the images are stored); every other field is kept.
    pub fn set_image(&mut self, image: Vec<String>)
        ensures
            final(self)@.image == image.deep_view(),
            final(self)@.model == old(self)@.model,
            final(self)@.category == old(self)@.category,
            final(self)@.bedroom == old(self)@.bedroom,
            final(self)@.bathroom == old(self)@.bathroom,
            final(self)@.price == old(self)@.price,
            final(self)@.address == old(self)@.address,
            final(self)@.description == old(self)@.description,
            final(self)@.meter == old(self)@.meter,
            final(self)@.tax == old(self)@.tax,
            final(self)@.condominium == old(self)@.condominium,
            final(self)@.parking == old(self)@.parking,
    {
        self.image = image;
    }
}

} // verus!
