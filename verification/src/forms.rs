//! The order in which a listing form is filled in. The page is driven outside
//! the library, one step at a time.
use vstd::prelude::*;
use crate::marketplace::make_is_dropdown;
use crate::models::property::{category_label as property_category_label, model_label, Category as PropertyCategory, Model};
use crate::error::DomainError;
use crate::models::vehicle::{bodystyle_label, category_label, condition_label, fuel_label, BodyStyle, Category, Condition, Fuel};
use crate::property::{Property, PropertyView};
use crate::selectors::{
    PROPERTY_XPATH_ADDRESS_INPUT, PROPERTY_XPATH_BATHROOM_INPUT, PROPERTY_XPATH_BEDROOM_INPUT,
    PROPERTY_XPATH_CATEGORY_DROPDOWN, PROPERTY_XPATH_CONDOMINIUM_INPUT, PROPERTY_XPATH_DESCRIPTION_TEXTAREA,
    PROPERTY_XPATH_METER_INPUT, PROPERTY_XPATH_MODEL_DROPDOWN, PROPERTY_XPATH_PARKING_DROPDOWN,
    PROPERTY_XPATH_PRICE_INPUT, PROPERTY_XPATH_TAX_INPUT,
    VEHICLE_XPATH_DESCRIPTION_TEXTAREA, VEHICLE_XPATH_LOCATION_INPUT, VEHICLE_XPATH_MAKE_DROPDOWN,
    VEHICLE_XPATH_BODYSTYLE_DROPDOWN, VEHICLE_XPATH_CONDITION_DROPDOWN, VEHICLE_XPATH_FUEL_DROPDOWN,
    VEHICLE_XPATH_MAKE_INPUT, VEHICLE_XPATH_MILEAGE_INPUT, VEHICLE_XPATH_MODEL_INPUT, VEHICLE_XPATH_PRICE_INPUT,
    VEHICLE_XPATH_TYPE_DROPDOWN,
    VEHICLE_XPATH_YEAR_DROPDOWN,
};
use crate::text::{decimal, decimal_text};
use crate::vehicle::{Vehicle, VehicleView};

verus! {

/// One action on the form.
#[derive(Debug)]
pub enum FormStep {
    /// Open the dropdown found by the XPath and click the option with this label.
    Choose { dropdown: String, option: String },
    /// Open the dropdown found by the XPath and click the option with this
    /// label if the form has that dropdown; a failure is ignored.
    ChooseIfPresent { dropdown: String, option: String },
    /// Type the text into the field found by the XPath; failing is an error.
    Type { field: String, text: String },
    /// Type the text into the field found by the XPath if the form has it; a
    /// failure is ignored.
    TypeIfPresent { field: String, text: String },
    /// Wait this many milliseconds for the form to react.
    Pause { ms: u64 },
    /// Click the first suggestion of the field just typed in, if there is one.
    PickFirstSuggestion,
}

/// A [`FormStep`], with its texts as character sequences.
pub enum PlannedStep {
    Choose(Seq<char>, Seq<char>),
    ChooseIfPresent(Seq<char>, Seq<char>),
    Type(Seq<char>, Seq<char>),
    TypeIfPresent(Seq<char>, Seq<char>),
    Pause(u64),
    PickFirstSuggestion,
}

impl View for FormStep {
    type V = PlannedStep;

    open spec fn view(&self) -> PlannedStep {
        match self {
            FormStep::Choose { dropdown, option } => PlannedStep::Choose(dropdown@, option@),
            FormStep::ChooseIfPresent { dropdown, option } => PlannedStep::ChooseIfPresent(dropdown@, option@),
            FormStep::Type { field, text } => PlannedStep::Type(field@, text@),
            FormStep::TypeIfPresent { field, text } => PlannedStep::TypeIfPresent(field@, text@),
            FormStep::Pause { ms } => PlannedStep::Pause(*ms),
            FormStep::PickFirstSuggestion => PlannedStep::PickFirstSuggestion,
        }
    }
}

/// The steps of a list of form actions.
pub open spec fn planned(steps: Seq<FormStep>) -> Seq<PlannedStep> {
    steps.map_values(|s: FormStep| s@)
}

/// Whether the step is only carried out when the form has the field, and
/// its failure is ignored.
pub open spec fn is_optional_step(s: PlannedStep) -> bool {
    s is TypeIfPresent || s is ChooseIfPresent
}

/// What the result of carrying out a step means for the publication: a
/// missing or failed optional step is skipped; a failed required step ends
/// the publication with its error.
pub fn step_outcome(step: &FormStep, result: Result<(), DomainError>) -> (r: Result<(), DomainError>)
    ensures
        is_optional_step(step@) ==> r is Ok,
        !is_optional_step(step@) ==> r == result,
{
    match step {
        FormStep::TypeIfPresent { .. } | FormStep::ChooseIfPresent { .. } => Ok(()),
        _ => result,
    }
}

/// Whether a step is optional.
pub fn step_is_optional(step: &FormStep) -> (r: bool)
    ensures
        r == is_optional_step(step@),
{
    match step {
        FormStep::TypeIfPresent { .. } | FormStep::ChooseIfPresent { .. } => true,
        _ => false,
    }
}

/// How the make is entered: picked from the dropdown for the kinds of vehicle
/// that have one, typed otherwise.
pub open spec fn make_step(category: Category, make: Seq<char>) -> PlannedStep {
    if make_is_dropdown(category) {
        PlannedStep::Choose(VEHICLE_XPATH_MAKE_DROPDOWN@, make)
    } else {
        PlannedStep::Type(VEHICLE_XPATH_MAKE_INPUT@, make)
    }
}

/// The vehicle form, after the photos are uploaded: kind of vehicle (then a
/// pause while the form adapts), year, make, model; mileage, body style,
/// condition and fuel where the form has them; price, location (then a pause
/// and the first suggested place), and the description where the form has one.
pub open spec fn vehicle_plan(v: VehicleView) -> Seq<PlannedStep> {
    seq![
        PlannedStep::Choose(VEHICLE_XPATH_TYPE_DROPDOWN@, category_label(v.category)),
        PlannedStep::Pause(2000),
        PlannedStep::Choose(VEHICLE_XPATH_YEAR_DROPDOWN@, decimal(v.year as nat)),
        make_step(v.category, v.manufacturer),
        PlannedStep::Type(VEHICLE_XPATH_MODEL_INPUT@, v.model),
        PlannedStep::TypeIfPresent(VEHICLE_XPATH_MILEAGE_INPUT@, decimal(v.mileage as nat)),
        PlannedStep::ChooseIfPresent(VEHICLE_XPATH_BODYSTYLE_DROPDOWN@, bodystyle_label(v.bodystyle)),
        PlannedStep::ChooseIfPresent(VEHICLE_XPATH_CONDITION_DROPDOWN@, condition_label(v.condition)),
        PlannedStep::ChooseIfPresent(VEHICLE_XPATH_FUEL_DROPDOWN@, fuel_label(v.fuel)),
        PlannedStep::Type(VEHICLE_XPATH_PRICE_INPUT@, decimal(v.price as nat)),
        PlannedStep::Type(VEHICLE_XPATH_LOCATION_INPUT@, v.address),
        PlannedStep::Pause(800),
        PlannedStep::PickFirstSuggestion,
        PlannedStep::TypeIfPresent(VEHICLE_XPATH_DESCRIPTION_TEXTAREA@, v.description),
    ]
}

/// The steps that fill in the vehicle form for `v`.
pub fn vehicle_form_steps(v: &Vehicle) -> (r: Vec<FormStep>)
    ensures
        planned(r@) == vehicle_plan(v@),
{
    let mut steps: Vec<FormStep> = Vec::new();
    let category = *v.category();
    steps.push(FormStep::Choose {
        dropdown: VEHICLE_XPATH_TYPE_DROPDOWN.to_owned(),
        option: Category::transform(&category).to_owned(),
    });
    steps.push(FormStep::Pause { ms: 2000 });
    steps.push(FormStep::Choose {
        dropdown: VEHICLE_XPATH_YEAR_DROPDOWN.to_owned(),
        option: decimal_text(v.year() as u64),
    });
    if crate::marketplace::make_uses_dropdown(category) {
        steps.push(FormStep::Choose { dropdown: VEHICLE_XPATH_MAKE_DROPDOWN.to_owned(), option: v.manufacturer().clone() });
    } else {
        steps.push(FormStep::Type { field: VEHICLE_XPATH_MAKE_INPUT.to_owned(), text: v.manufacturer().clone() });
    }
    steps.push(FormStep::Type { field: VEHICLE_XPATH_MODEL_INPUT.to_owned(), text: v.model().clone() });
    steps.push(FormStep::TypeIfPresent {
        field: VEHICLE_XPATH_MILEAGE_INPUT.to_owned(),
        text: decimal_text(v.mileage() as u64),
    });
    steps.push(FormStep::ChooseIfPresent {
        dropdown: VEHICLE_XPATH_BODYSTYLE_DROPDOWN.to_owned(),
        option: BodyStyle::transform(v.bodystyle()).to_owned(),
    });
    steps.push(FormStep::ChooseIfPresent {
        dropdown: VEHICLE_XPATH_CONDITION_DROPDOWN.to_owned(),
        option: Condition::transform(v.condition()).to_owned(),
    });
    steps.push(FormStep::ChooseIfPresent {
        dropdown: VEHICLE_XPATH_FUEL_DROPDOWN.to_owned(),
        option: Fuel::transform(v.fuel()).to_owned(),
    });
    steps.push(FormStep::Type { field: VEHICLE_XPATH_PRICE_INPUT.to_owned(), text: decimal_text(v.price() as u64) });
    steps.push(FormStep::Type { field: VEHICLE_XPATH_LOCATION_INPUT.to_owned(), text: v.address().clone() });
    steps.push(FormStep::Pause { ms: 800 });
    steps.push(FormStep::PickFirstSuggestion);
    steps.push(FormStep::TypeIfPresent {
        field: VEHICLE_XPATH_DESCRIPTION_TEXTAREA.to_owned(),
        text: v.description().clone(),
    });
    assert(planned(steps@) =~= vehicle_plan(v@));
    steps
}

/// The property form, after the photos are uploaded: sale or rent, kind of
/// home, bedrooms, bathrooms, price, address (then a pause and the first
/// suggested place), description, area, tax, condominium fee and parking
/// spaces.
pub open spec fn property_plan(p: PropertyView) -> Seq<PlannedStep> {
    seq![
        PlannedStep::Choose(PROPERTY_XPATH_MODEL_DROPDOWN@, model_label(p.model)),
        PlannedStep::Choose(PROPERTY_XPATH_CATEGORY_DROPDOWN@, property_category_label(p.category)),
        PlannedStep::Type(PROPERTY_XPATH_BEDROOM_INPUT@, decimal(p.bedroom as nat)),
        PlannedStep::Type(PROPERTY_XPATH_BATHROOM_INPUT@, decimal(p.bathroom as nat)),
        PlannedStep::Type(PROPERTY_XPATH_PRICE_INPUT@, decimal(p.price as nat)),
        PlannedStep::Type(PROPERTY_XPATH_ADDRESS_INPUT@, p.address),
        PlannedStep::Pause(800),
        PlannedStep::PickFirstSuggestion,
        PlannedStep::Type(PROPERTY_XPATH_DESCRIPTION_TEXTAREA@, p.description),
        PlannedStep::Type(PROPERTY_XPATH_METER_INPUT@, decimal(p.meter as nat)),
        PlannedStep::Type(PROPERTY_XPATH_TAX_INPUT@, decimal(p.tax as nat)),
        PlannedStep::Type(PROPERTY_XPATH_CONDOMINIUM_INPUT@, decimal(p.condominium as nat)),
        PlannedStep::Choose(PROPERTY_XPATH_PARKING_DROPDOWN@, decimal(p.parking as nat)),
    ]
}

/// The steps that fill in the property form for `p`.
pub fn property_form_steps(p: &Property) -> (r: Vec<FormStep>)
    ensures
        planned(r@) == property_plan(p@),
{
    let mut steps: Vec<FormStep> = Vec::new();
    steps.push(FormStep::Choose {
        dropdown: PROPERTY_XPATH_MODEL_DROPDOWN.to_owned(),
        option: Model::transform(p.model()).to_owned(),
    });
    steps.push(FormStep::Choose {
        dropdown: PROPERTY_XPATH_CATEGORY_DROPDOWN.to_owned(),
        option: PropertyCategory::transform(p.category()).to_owned(),
    });
    steps.push(FormStep::Type { field: PROPERTY_XPATH_BEDROOM_INPUT.to_owned(), text: decimal_text(p.bedroom() as u64) });
    steps.push(FormStep::Type { field: PROPERTY_XPATH_BATHROOM_INPUT.to_owned(), text: decimal_text(p.bathroom() as u64) });
    steps.push(FormStep::Type { field: PROPERTY_XPATH_PRICE_INPUT.to_owned(), text: decimal_text(p.price() as u64) });
    steps.push(FormStep::Type { field: PROPERTY_XPATH_ADDRESS_INPUT.to_owned(), text: p.address().clone() });
    steps.push(FormStep::Pause { ms: 800 });
    steps.push(FormStep::PickFirstSuggestion);
    steps.push(FormStep::Type { field: PROPERTY_XPATH_DESCRIPTION_TEXTAREA.to_owned(), text: p.description().clone() });
    steps.push(FormStep::Type { field: PROPERTY_XPATH_METER_INPUT.to_owned(), text: decimal_text(p.meter() as u64) });
    steps.push(FormStep::Type { field: PROPERTY_XPATH_TAX_INPUT.to_owned(), text: decimal_text(p.tax() as u64) });
    steps.push(FormStep::Type {
        field: PROPERTY_XPATH_CONDOMINIUM_INPUT.to_owned(),
        text: decimal_text(p.condominium() as u64),
    });
    steps.push(FormStep::Choose {
        dropdown: PROPERTY_XPATH_PARKING_DROPDOWN.to_owned(),
        option: decimal_text(p.parking() as u64),
    });
    assert(planned(steps@) =~= property_plan(p@));
    steps
}

} // verus!
