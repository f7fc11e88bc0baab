use fast_marketplace::forms::property_form_steps;
use fast_marketplace::models::property::{Category as Home, Model};
use fast_marketplace::property::Property;
use fast_marketplace::selectors::{PROPERTY_XPATH_MODEL_DROPDOWN, PROPERTY_XPATH_PARKING_DROPDOWN, PROPERTY_XPATH_TAX_INPUT};
use fast_marketplace::forms::{step_is_optional, step_outcome, vehicle_form_steps, FormStep};
use fast_marketplace::error::DomainError;
use fast_marketplace::models::vehicle::{BodyStyle, Category, Condition, Fuel};
use fast_marketplace::options::option_synonyms_of;
use fast_marketplace::selectors::{VEHICLE_XPATH_BODYSTYLE_DROPDOWN, VEHICLE_XPATH_CONDITION_DROPDOWN, VEHICLE_XPATH_FUEL_DROPDOWN, VEHICLE_XPATH_MILEAGE_INPUT, VEHICLE_XPATH_MAKE_DROPDOWN, VEHICLE_XPATH_MAKE_INPUT, VEHICLE_XPATH_TYPE_DROPDOWN, VEHICLE_XPATH_YEAR_DROPDOWN, VEHICLE_XPATH_PRICE_INPUT};
use fast_marketplace::text::decimal_text;
use fast_marketplace::vehicle::Vehicle;

const CATEGORIES: [Category; 8] = [
    Category::CarOrPickup, Category::Motorcycle, Category::Powersport, Category::Trailer,
    Category::UtilityTrailer, Category::Boat, Category::CommercialOrIndustrial, Category::Other,
];

#[test]
fn labels() {
    assert_eq!(Category::transform(&Category::CarOrPickup), "Carro/picape");
    assert_eq!(Category::transform(&Category::UtilityTrailer), "Reboque");
    assert_eq!(Condition::transform(&Condition::VeryGood), "Muito bom");
    assert_eq!(Fuel::transform(&Fuel::PlugInHybrid), "Híbrido plug-in");
}

#[test]
fn every_vehicle_label_has_other_wordings() {
    for c in CATEGORIES {
        assert!(!option_synonyms_of(Category::transform(&c)).is_empty());
    }
    for k in [Condition::Excellent, Condition::VeryGood, Condition::Good, Condition::Fair, Condition::Poor] {
        assert!(!option_synonyms_of(Condition::transform(&k)).is_empty());
    }
    for f in [Fuel::Diesel, Fuel::Electric, Fuel::Gasoline, Fuel::Flex, Fuel::Hybrid, Fuel::PlugInHybrid, Fuel::Other] {
        assert!(!option_synonyms_of(Fuel::transform(&f)).is_empty());
    }
}

#[test]
fn decimal_texts() {
    assert_eq!(decimal_text(0), "0");
    assert_eq!(decimal_text(7), "7");
    assert_eq!(decimal_text(2023), "2023");
    assert_eq!(decimal_text(950000), "950000");
    assert_eq!(decimal_text(u64::MAX), u64::MAX.to_string());
}

fn vehicle(category: Category) -> Vehicle {
    Vehicle::new(category, vec![], "Rua C".to_string(), 2023, "Porsche".to_string(), "911".to_string(), 5500, BodyStyle::Coupe, 950000, Condition::Excellent, Fuel::Gasoline, "Bom".to_string())
}

#[test]
fn car_form_steps() {
    let steps = vehicle_form_steps(&vehicle(Category::CarOrPickup));
    assert_eq!(steps.len(), 14);
    assert!(matches!(&steps[0], FormStep::Choose { dropdown, option } if dropdown == VEHICLE_XPATH_TYPE_DROPDOWN && option == "Carro/picape"));
    assert!(matches!(&steps[1], FormStep::Pause { ms: 2000 }));
    assert!(matches!(&steps[2], FormStep::Choose { dropdown, option } if dropdown == VEHICLE_XPATH_YEAR_DROPDOWN && option == "2023"));
    assert!(matches!(&steps[3], FormStep::Choose { dropdown, option } if dropdown == VEHICLE_XPATH_MAKE_DROPDOWN && option == "Porsche"));
    assert!(matches!(&steps[5], FormStep::TypeIfPresent { field, text } if field == VEHICLE_XPATH_MILEAGE_INPUT && text == "5500"));
    assert!(matches!(&steps[6], FormStep::ChooseIfPresent { dropdown, option } if dropdown == VEHICLE_XPATH_BODYSTYLE_DROPDOWN && option == "Cupê"));
    assert!(matches!(&steps[7], FormStep::ChooseIfPresent { dropdown, option } if dropdown == VEHICLE_XPATH_CONDITION_DROPDOWN && option == "Excelente"));
    assert!(matches!(&steps[8], FormStep::ChooseIfPresent { dropdown, option } if dropdown == VEHICLE_XPATH_FUEL_DROPDOWN && option == "Gasolina"));
    assert!(matches!(&steps[9], FormStep::Type { field, text } if field == VEHICLE_XPATH_PRICE_INPUT && text == "950000"));
    assert!(matches!(&steps[12], FormStep::PickFirstSuggestion));
    assert!(matches!(&steps[13], FormStep::TypeIfPresent { text, .. } if text == "Bom"));
}

#[test]
fn boat_form_types_the_make() {
    let steps = vehicle_form_steps(&vehicle(Category::Boat));
    assert!(matches!(&steps[0], FormStep::Choose { option, .. } if option == "Barco"));
    assert!(matches!(&steps[3], FormStep::Type { field, text } if field == VEHICLE_XPATH_MAKE_INPUT && text == "Porsche"));
}

#[test]
fn property_form_steps_in_order() {
    let p = Property::new(vec![], Model::Rent, Home::Townhouse, 3, 2, 50000, "Rua".to_string(), "Desc".to_string(), 80, 500, 800, 1);
    let steps = property_form_steps(&p);
    assert_eq!(steps.len(), 13);
    assert!(matches!(&steps[0], FormStep::Choose { dropdown, option } if dropdown == PROPERTY_XPATH_MODEL_DROPDOWN && option == "Aluguel"));
    assert!(matches!(&steps[1], FormStep::Choose { option, .. } if option == "Casa geminada"));
    assert!(matches!(&steps[4], FormStep::Type { text, .. } if text == "50000"));
    assert!(matches!(&steps[10], FormStep::Type { field, text } if field == PROPERTY_XPATH_TAX_INPUT && text == "500"));
    assert!(matches!(&steps[12], FormStep::Choose { dropdown, option } if dropdown == PROPERTY_XPATH_PARKING_DROPDOWN && option == "1"));
}

#[test]
fn property_labels() {
    assert_eq!(Model::transform(&Model::Sale), "À venda");
    assert_eq!(Home::transform(&Home::House), "Casa");
    for m in [Model::Sale, Model::Rent] {
        assert!(!option_synonyms_of(Model::transform(&m)).is_empty());
    }
    for h in [Home::House, Home::Apartment, Home::Townhouse] {
        assert!(!option_synonyms_of(Home::transform(&h)).is_empty());
    }
}

#[test]
fn body_style_labels() {
    assert_eq!(BodyStyle::transform(&BodyStyle::StationWagon), "Station wagon");
    assert_eq!(BodyStyle::transform(&BodyStyle::Pickup), "Picape");
    for b in [BodyStyle::Coupe, BodyStyle::Sedan, BodyStyle::Hatchback, BodyStyle::Suv, BodyStyle::Convertible,
              BodyStyle::StationWagon, BodyStyle::Minivan, BodyStyle::CompactCar, BodyStyle::Other] {
        assert!(!option_synonyms_of(BodyStyle::transform(&b)).is_empty());
    }
}

#[test]
fn optional_step_failures_are_skipped() {
    let optional = FormStep::ChooseIfPresent { dropdown: "//x".to_string(), option: "y".to_string() };
    assert!(step_is_optional(&optional));
    assert!(step_outcome(&optional, Err(DomainError::AutomationError("boom".to_string()))).is_ok());
    let typed = FormStep::TypeIfPresent { field: "//x".to_string(), text: "y".to_string() };
    assert!(step_outcome(&typed, Err(DomainError::NotFound)).is_ok());
    let required = FormStep::Type { field: "//x".to_string(), text: "y".to_string() };
    assert!(!step_is_optional(&required));
    assert!(matches!(step_outcome(&required, Err(DomainError::NotFound)), Err(DomainError::NotFound)));
    assert!(step_outcome(&required, Ok(())).is_ok());
    assert!(!step_is_optional(&FormStep::Pause { ms: 1 }));
}
