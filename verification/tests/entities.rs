use fast_marketplace::models::property::{Category as Home, Model};
use fast_marketplace::property::Property;
use fast_marketplace::item::{Item, ItemXPath};
use fast_marketplace::models::item::{Availability, Category as ItemCategory, Condition as ItemCondition, Meeting};
use fast_marketplace::models::vehicle::{BodyStyle, Category, Condition, Fuel};
use fast_marketplace::vehicle::{Vehicle, VehicleXPath};

#[test]
fn vehicle_reads_back_what_was_built() {
    let v = Vehicle::new(
        Category::Motorcycle,
        vec!["a.jpg".to_string()],
        "Rua A".to_string(),
        2020,
        "Honda".to_string(),
        "CB 500".to_string(),
        1200,
        BodyStyle::Other,
        30000,
        Condition::VeryGood,
        Fuel::Gasoline,
        "Nova".to_string(),
    );
    assert_eq!(*v.category(), Category::Motorcycle);
    assert_eq!(v.image(), &vec!["a.jpg".to_string()]);
    assert_eq!(v.address(), "Rua A");
    assert_eq!(v.year(), 2020);
    assert_eq!(v.manufacturer(), "Honda");
    assert_eq!(v.model(), "CB 500");
    assert_eq!(v.price(), 30000);
    assert_eq!(v.mileage(), 1200);
    assert_eq!(*v.bodystyle(), BodyStyle::Other);
    assert_eq!(*v.condition(), Condition::VeryGood);
    assert_eq!(*v.fuel(), Fuel::Gasoline);
    let c = v.clone();
    assert_eq!((c.price(), c.mileage(), c.model().as_str()), (30000, 1200, "CB 500"));
    assert_eq!(v.description(), "Nova");
}

#[test]
fn vehicle_set_image_keeps_other_fields() {
    let mut v = Vehicle::new(Category::Boat, vec![], "Porto".to_string(), 1999, "X".to_string(), "Y".to_string(), 10, BodyStyle::Other, 5, Condition::Fair, Fuel::Diesel, "Z".to_string());
    v.set_image(vec!["/tmp/1.jpg".to_string()]);
    assert_eq!(v.image(), &vec!["/tmp/1.jpg".to_string()]);
    assert_eq!(v.address(), "Porto");
    assert_eq!(v.year(), 1999);
}

#[test]
fn item_reads_back_what_was_built() {
    let i = Item::new(
        vec!["i.jpg".to_string()],
        "Mesa".to_string(),
        150,
        ItemCategory::new("Móveis".to_string()),
        ItemCondition::new("Usado - bom".to_string()),
        "Mesa de madeira".to_string(),
        Availability::new("Em estoque".to_string()),
        "Rua B".to_string(),
        vec![Meeting::new("Retirada".to_string())],
    );
    assert_eq!(i.image(), &vec!["i.jpg".to_string()]);
    assert_eq!(i.title(), "Mesa");
    assert_eq!(i.price(), 150);
    assert_eq!(i.category().label(), "Móveis");
    assert_eq!(i.condition().label(), "Usado - bom");
    assert_eq!(i.description(), "Mesa de madeira");
    assert_eq!(i.availability().label(), "Em estoque");
    assert_eq!(i.address(), "Rua B");
    assert_eq!(i.meeting().len(), 1);
    assert_eq!(i.meeting()[0].label(), "Retirada");
    let c = i.clone();
    assert_eq!(c.price(), 150);
    assert_eq!(c.title(), "Mesa");
    assert_eq!(c.meeting()[0].label(), "Retirada");
}

#[test]
fn xpath_records_keep_their_selectors() {
    let x = ItemXPath::new(
        "a".to_string(), "b".to_string(), "c".to_string(), "d".to_string(), "e".to_string(),
        "f".to_string(), "g".to_string(), "h".to_string(), "i".to_string(),
    );
    assert_eq!((x.image.as_str(), x.title.as_str(), x.meeting.as_str()), ("a", "b", "i"));
    let v = VehicleXPath::new(
        "a".to_string(), "b".to_string(), "c".to_string(), "d".to_string(),
        "e".to_string(), "f".to_string(), "g".to_string(), "h".to_string(),
    );
    assert_eq!((v.category.as_str(), v.year.as_str(), v.description.as_str()), ("a", "d", "h"));
}

#[test]
fn property_reads_back_what_was_built() {
    let mut p = Property::new(vec!["a".to_string()], Model::Sale, Home::Apartment, 3, 2, 50000, "Rua".to_string(), "Desc".to_string(), 80, 500, 800, 1);
    assert_eq!(*p.model(), Model::Sale);
    assert_eq!(*p.category(), Home::Apartment);
    assert_eq!((p.bedroom(), p.bathroom(), p.price(), p.meter(), p.tax(), p.condominium(), p.parking()), (3, 2, 50000, 80, 500, 800, 1));
    assert_eq!(p.address(), "Rua");
    assert_eq!(p.description(), "Desc");
    p.set_image(vec!["/tmp/a.jpg".to_string()]);
    assert_eq!(p.image(), &vec!["/tmp/a.jpg".to_string()]);
    assert_eq!(p.price(), 50000);
    assert_eq!(p.clone().parking(), 1);
}

#[test]
fn item_price_survives_a_clone_at_the_extremes() {
    for price in [0u32, u32::MAX] {
        let i = Item::new(vec![], "t".to_string(), price, ItemCategory::new("c".to_string()), ItemCondition::new("n".to_string()),
            "d".to_string(), Availability::new("a".to_string()), "r".to_string(), vec![]);
        assert_eq!(i.price(), price);
        assert_eq!(i.clone().price(), price);
    }
}
