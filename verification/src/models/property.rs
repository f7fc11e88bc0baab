//! Options of the property listing form.
use vstd::prelude::*;

verus! {

/// Whether the property is offered for sale or for rent.
#[derive(Clone, Copy, Debug, PartialEq, Eq, Structural)]
pub enum Model {
    Sale,
    Rent,
}

/// The kind of home.
#[derive(Clone, Copy, Debug, PartialEq, Eq, Structural)]
pub enum Category {
    House,
    Apartment,
    Townhouse,
}

/// The label of each kind of offer on the property form.
pub open spec fn model_label(m: Model) -> Seq<char> {
    match m {
        Model::Sale => "À venda"@,
        Model::Rent => "Aluguel"@,
    }
}

/// The label of each kind of home on the property form.
pub open spec fn category_label(c: Category) -> Seq<char> {
    match c {
        Category::House => "Casa"@,
        Category::Apartment => "Apartamento"@,
        Category::Townhouse => "Casa geminada"@,
    }
}

impl Model {
    /// The label of the option as the listing form shows it.
    pub fn transform(m: &Model) -> (r: &'static str)
        ensures
            r@ == model_label(*m),
    {
        match m {
            Model::Sale => "À venda",
            Model::Rent => "Aluguel",
        }
    }
}

impl Category {
    /// The label of the option as the listing form shows it.
    pub fn transform(c: &Category) -> (r: &'static str)
        ensures
            r@ == category_label(*c),
    {
        match c {
            Category::House => "Casa",
            Category::Apartment => "Apartamento",
            Category::Townhouse => "Casa geminada",
        }
    }
}

} // verus!
