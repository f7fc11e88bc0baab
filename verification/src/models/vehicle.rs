//! Options of the vehicle listing form.
use vstd::prelude::*;

verus! {

/// The kind of vehicle a listing offers.
#[derive(Clone, Copy, Debug, PartialEq, Eq, Structural)]
pub enum Category {
    CarOrPickup,
    Motorcycle,
    Powersport,
    Trailer,
    UtilityTrailer,
    Boat,
    CommercialOrIndustrial,
    Other,
}

/// The body style of a car.
#[derive(Clone, Copy, Debug, PartialEq, Eq, Structural)]
pub enum BodyStyle {
    Coupe,
    Pickup,
    Sedan,
    Hatchback,
    Suv,
    Convertible,
    StationWagon,
    Minivan,
    CompactCar,
    Other,
}

/// The state of repair of a vehicle.
#[derive(Clone, Copy, Debug, PartialEq, Eq, Structural)]
pub enum Condition {
    Excellent,
    VeryGood,
    Good,
    Fair,
    Poor,
}

/// The fuel a vehicle runs on.
#[derive(Clone, Copy, Debug, PartialEq, Eq, Structural)]
pub enum Fuel {
    Diesel,
    Electric,
    Gasoline,
    Flex,
    Hybrid,
    PlugInHybrid,
    Other,
}

/// The label of each kind of vehicle on the vehicle form.
pub open spec fn category_label(c: Category) -> Seq<char> {
    match c {
        Category::CarOrPickup => "Carro/picape"@,
        Category::Motorcycle => "Motocicleta"@,
        Category::Powersport => "Veículos para esportes"@,
        Category::Trailer => "Trailer"@,
        Category::UtilityTrailer => "Reboque"@,
        Category::Boat => "Barco"@,
        Category::CommercialOrIndustrial => "Comercial/industrial"@,
        Category::Other => "Outro"@,
    }
}

impl Category {
    /// The label of the option as the listing form shows it.
    pub fn transform(c: &Category) -> (r: &'static str)
        ensures
            r@ == category_label(*c),
    {
        match c {
            Category::CarOrPickup => "Carro/picape",
            Category::Motorcycle => "Motocicleta",
            Category::Powersport => "Veículos para esportes",
            Category::Trailer => "Trailer",
            Category::UtilityTrailer => "Reboque",
            Category::Boat => "Barco",
            Category::CommercialOrIndustrial => "Comercial/industrial",
            Category::Other => "Outro",
        }
    }
}

/// The label of each state of repair on the vehicle form.
pub open spec fn condition_label(c: Condition) -> Seq<char> {
    match c {
        Condition::Excellent => "Excelente"@,
        Condition::VeryGood => "Muito bom"@,
        Condition::Good => "Bom"@,
        Condition::Fair => "Razoável"@,
        Condition::Poor => "Ruim"@,
    }
}

impl Condition {
    /// The label of the option as the listing form shows it.
    pub fn transform(c: &Condition) -> (r: &'static str)
        ensures
            r@ == condition_label(*c),
    {
        match c {
            Condition::Excellent => "Excelente",
            Condition::VeryGood => "Muito bom",
            Condition::Good => "Bom",
            Condition::Fair => "Razoável",
            Condition::Poor => "Ruim",
        }
    }
}

/// The label of each fuel on the vehicle form.
pub open spec fn fuel_label(c: Fuel) -> Seq<char> {
    match c {
        Fuel::Diesel => "Diesel"@,
        Fuel::Electric => "Elétrico"@,
        Fuel::Gasoline => "Gasolina"@,
        Fuel::Flex => "Flex"@,
        Fuel::Hybrid => "Híbrido"@,
        Fuel::PlugInHybrid => "Híbrido plug-in"@,
        Fuel::Other => "Outro"@,
    }
}

impl Fuel {
    /// The label of the option as the listing form shows it.
    pub fn transform(c: &Fuel) -> (r: &'static str)
        ensures
            r@ == fuel_label(*c),
    {
        match c {
            Fuel::Diesel => "Diesel",
            Fuel::Electric => "Elétrico",
            Fuel::Gasoline => "Gasolina",
            Fuel::Flex => "Flex",
            Fuel::Hybrid => "Híbrido",
            Fuel::PlugInHybrid => "Híbrido plug-in",
            Fuel::Other => "Outro",
        }
    }
}

/// The label of each body style on the vehicle form.
pub open spec fn bodystyle_label(b: BodyStyle) -> Seq<char> {
    match b {
        BodyStyle::Coupe => "Cupê"@,
        BodyStyle::Pickup => "Picape"@,
        BodyStyle::Sedan => "Sedã"@,
        BodyStyle::Hatchback => "Hatch"@,
        BodyStyle::Suv => "SUV"@,
        BodyStyle::Convertible => "Conversível"@,
        BodyStyle::StationWagon => "Station wagon"@,
        BodyStyle::Minivan => "Minivan"@,
        BodyStyle::CompactCar => "Carro compacto"@,
        BodyStyle::Other => "Outro"@,
    }
}

impl BodyStyle {
    /// The label of the option as the listing form shows it.
    pub fn transform(b: &BodyStyle) -> (r: &'static str)
        ensures
            r@ == bodystyle_label(*b),
    {
        match b {
            BodyStyle::Coupe => "Cupê",
            BodyStyle::Pickup => "Picape",
            BodyStyle::Sedan => "Sedã",
            BodyStyle::Hatchback => "Hatch",
            BodyStyle::Suv => "SUV",
            BodyStyle::Convertible => "Conversível",
            BodyStyle::StationWagon => "Station wagon",
            BodyStyle::Minivan => "Minivan",
            BodyStyle::CompactCar => "Carro compacto",
            BodyStyle::Other => "Outro",
        }
    }
}

} // verus!
