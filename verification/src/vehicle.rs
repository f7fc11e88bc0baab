//! The vehicle listing and the selectors that locate its fields on a page.
use vstd::prelude::*;
use crate::models::vehicle::{BodyStyle, Category, Condition, Fuel};

verus! {

/// A vehicle offered for sale.
#[derive(Debug)]
pub struct Vehicle {
    category: Category,
    image: Vec<String>,
    address: String,
    year: u16,
    manufacturer: String,
    model: String,
    mileage: u32,
    bodystyle: BodyStyle,
    price: u32,
    condition: Condition,
    fuel: Fuel,
    description: String,
}

/// The contents of a [`Vehicle`].
pub struct VehicleView {
    pub category: Category,
    pub image: Seq<Seq<char>>,
    pub address: Seq<char>,
    pub year: u16,
    pub manufacturer: Seq<char>,
    pub model: Seq<char>,
    pub mileage: u32,
    pub bodystyle: BodyStyle,
    pub price: u32,
    pub condition: Condition,
    pub fuel: Fuel,
    pub description: Seq<char>,
}

impl View for Vehicle {
    type V = VehicleView;

    closed spec fn view(&self) -> VehicleView {
        VehicleView {
            category: self.category,
            image: self.image.deep_view(),
            address: self.address@,
            year: self.year,
            manufacturer: self.manufacturer@,
            model: self.model@,
            mileage: self.mileage,
            bodystyle: self.bodystyle,
            price: self.price,
            condition: self.condition,
            fuel: self.fuel,
            description: self.description@,
        }
    }
}

impl Clone for Vehicle {
    /// A copy with the same contents.
    fn clone(&self) -> (r: Self)
        ensures
            r@ == self@,
    {
        let image = self.image.clone();
        assert(image.deep_view() =~= self.image.deep_view());
        Vehicle {
            category: self.category,
            image,
            address: self.address.clone(),
            year: self.year,
            manufacturer: self.manufacturer.clone(),
            model: self.model.clone(),
            mileage: self.mileage,
            bodystyle: self.bodystyle,
            price: self.price,
            condition: self.condition,
            fuel: self.fuel,
            description: self.description.clone(),
        }
    }
}

impl Vehicle {
    pub fn new(
        category: Category,
        image: Vec<String>,
        address: String,
        year: u16,
        manufacturer: String,
        model: String,
        mileage: u32,
        bodystyle: BodyStyle,
        price: u32,
        condition: Condition,
        fuel: Fuel,
        description: String,
    ) -> (r: Self)
        ensures
            r@.category == category,
            r@.image == image.deep_view(),
            r@.address == address@,
            r@.year == year,
            r@.manufacturer == manufacturer@,
            r@.model == model@,
            r@.mileage == mileage,
            r@.bodystyle == bodystyle,
            r@.price == price,
            r@.condition == condition,
            r@.fuel == fuel,
            r@.description == description@,
    {
        Self {
            category,
            image,
            address,
            year,
            manufacturer,
            model,
            mileage,
            bodystyle,
            price,
            condition,
            fuel,
            description,
        }
    }

    pub fn category(&self) -> (r: &Category)
        ensures
            *r == self@.category,
    {
        &self.category
    }

    pub fn image(&self) -> (r: &Vec<String>)
        ensures
            r.deep_view() == self@.image,
    {
        &self.image
    }

    pub fn address(&self) -> (r: &String)
        ensures
            r@ == self@.address,
    {
        &self.address
    }

    pub fn year(&self) -> (r: u16)
        ensures
            r == self@.year,
    {
        self.year
    }

    pub fn manufacturer(&self) -> (r: &String)
        ensures
            r@ == self@.manufacturer,
    {
        &self.manufacturer
    }

    pub fn model(&self) -> (r: &String)
        ensures
            r@ == self@.model,
    {
        &self.model
    }

    pub fn mileage(&self) -> (r: u32)
        ensures
            r == self@.mileage,
    {
        self.mileage
    }

    pub fn bodystyle(&self) -> (r: &BodyStyle)
        ensures
            *r == self@.bodystyle,
    {
        &self.bodystyle
    }

    pub fn price(&self) -> (r: u32)
        ensures
            r == self@.price,
    {
        self.price
    }

    pub fn condition(&self) -> (r: &Condition)
        ensures
            *r == self@.condition,
    {
        &self.condition
    }

    pub fn fuel(&self) -> (r: &Fuel)
        ensures
            *r == self@.fuel,
    {
        &self.fuel
    }

    pub fn description(&self) -> (r: &String)
        ensures
            r@ == self@.description,
    {
        &self.description
    }

    /// Replaces the image list (remote addresses become local file paths once
    /// the images are stored); every other field is kept.
    pub fn set_image(&mut self, image: Vec<String>)
        ensures
            final(self)@.image == image.deep_view(),
            final(self)@.category == old(self)@.category,
            final(self)@.address == old(self)@.address,
            final(self)@.year == old(self)@.year,
            final(self)@.manufacturer == old(self)@.manufacturer,
            final(self)@.model == old(self)@.model,
            final(self)@.mileage == old(self)@.mileage,
            final(self)@.bodystyle == old(self)@.bodystyle,
            final(self)@.price == old(self)@.price,
            final(self)@.condition == old(self)@.condition,
            final(self)@.fuel == old(self)@.fuel,
            final(self)@.description == old(self)@.description,
    {
        self.image = image;
    }
}

/// The XPath selectors of the fields of the vehicle form.
#[derive(Clone, Debug)]
pub struct VehicleXPath {
    pub category: String,
    pub image: String,
    pub address: String,
    pub year: String,
    pub manufacturer: String,
    pub model: String,
    pub price: String,
    pub description: String,
}

impl VehicleXPath {
    pub fn new(
        category: String,
        image: String,
        address: String,
        year: String,
        manufacturer: String,
        model: String,
        price: String,
        description: String,
    ) -> (r: Self)
        ensures
            r.category == category,
            r.image == image,
            r.address == address,
            r.year == year,
            r.manufacturer == manufacturer,
            r.model == model,
            r.price == price,
            r.description == description,
    {
        Self { category, image, address, year, manufacturer, model, price, description }
    }
}

} // verus!
