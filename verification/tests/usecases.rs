use std::sync::Arc;

use fast_marketplace::error::{DomainError, UseCasesError};
use fast_marketplace::models::property::{Category as PropertyCategory, Model};
use fast_marketplace::models::vehicle::{BodyStyle, Category, Condition, Fuel};
use fast_marketplace::property::Property;
use fast_marketplace::usecases::{AddPropertyUseCase, AddVehicleUseCase, ListingAction, ListingEvent, ListingFlow};
use fast_marketplace::vehicle::Vehicle;

struct InMemoryImageRepository;
struct InMemoryMarketplace {
    vehicles: std::sync::Mutex<Vec<Vehicle>>,
    properties: std::sync::Mutex<Vec<Property>>,
}
struct InMemoryPropertyService {
    property: Property,
}
struct InMemoryVehicleService {
    vehicle: Vehicle,
}

fn sample_vehicle() -> Vehicle {
    Vehicle::new(
        Category::CarOrPickup,
        vec![
            "https://cdn.example.com/porsche_frente.jpg".to_string(),
            "https://cdn.example.com/porsche_painel.jpg".to_string(),
        ],
        "Avenida Brigadeiro Faria Lima, 3000 - São Paulo, SP".to_string(),
        2023,
        "Porsche".to_string(),
        "911 Carrera S".to_string(),
        5500,
        BodyStyle::Coupe,
        950000,
        Condition::Excellent,
        Fuel::Gasoline,
        "Veículo impecável, único dono.".to_string(),
    )
}

/// Runs a publication the way the server does, with in-memory services.
fn run_vehicle_publication(
    usecase: &AddVehicleUseCase<InMemoryImageRepository, InMemoryMarketplace, InMemoryVehicleService>,
    _url: String,
    _token: String,
    client_id: String,
) -> Result<(), UseCasesError> {
    let mut flow = ListingFlow::start();
    let mut listing = usecase.vehicle_service().vehicle.clone();
    let mut event = ListingEvent::ListingFetched(listing.image().clone());
    loop {
        let (next, action) = flow.step(event);
        flow = next;
        match action {
            ListingAction::StoreImages(urls) => {
                let _repo = usecase.image_repository();
                let stored: Vec<String> = urls.iter().enumerate().map(|(i, _)| format!("/tmp/img{}.jpg", i)).collect();
                event = ListingEvent::ImagesStored(stored);
            }
            ListingAction::Publish(paths) => {
                listing.set_image(paths);
                assert!(!client_id.is_empty());
                usecase.webscraping_marketplace_service().vehicles.lock().unwrap().push(listing.clone());
                event = ListingEvent::PublicationDone(Ok(()));
            }
            ListingAction::Finish(result) => return result,
        }
    }
}

#[test]
fn add_vehicle_success() {
    let image_repository = Arc::new(InMemoryImageRepository);
    let webscraping_marketplace_service = Arc::new(InMemoryMarketplace { vehicles: std::sync::Mutex::new(Vec::new()), properties: std::sync::Mutex::new(Vec::new()) });
    let vehicle_service = Arc::new(InMemoryVehicleService { vehicle: sample_vehicle() });

    let usecase = AddVehicleUseCase::new(image_repository, webscraping_marketplace_service, vehicle_service);

    let url = "https://example.com".to_string();
    let token = "asdASD123".to_string();
    let client_id = "123".to_string();

    let response = run_vehicle_publication(&usecase, url, token, client_id);

    assert!(response.is_ok());
    let published = usecase.webscraping_marketplace_service().vehicles.lock().unwrap();
    assert_eq!(published.len(), 1);
    assert_eq!(published[0].image(), &vec!["/tmp/img0.jpg".to_string(), "/tmp/img1.jpg".to_string()]);
    assert_eq!(published[0].model(), "911 Carrera S");
}

#[test]
fn property_use_case_keeps_its_services() {
    let a = Arc::new(1u8);
    let b = Arc::new(2u16);
    let c = Arc::new(3u32);
    let usecase = AddPropertyUseCase::new(a.clone(), b.clone(), c.clone());
    assert!(Arc::ptr_eq(usecase.image_repository(), &a));
    assert!(Arc::ptr_eq(usecase.webscraping_marketplace_service(), &b));
    assert!(Arc::ptr_eq(usecase.property_service(), &c));
}

#[test]
fn listing_flow_stores_fetched_images() {
    let (next, action) = ListingFlow::start().step(ListingEvent::ListingFetched(vec!["a".to_string()]));
    assert_eq!(next, ListingFlow::AwaitingImages);
    assert!(matches!(action, ListingAction::StoreImages(ref v) if v == &vec!["a".to_string()]));
    let (next, action) = next.step(ListingEvent::ImagesStored(vec!["/x.jpg".to_string()]));
    assert_eq!(next, ListingFlow::AwaitingPublication);
    assert!(matches!(action, ListingAction::Publish(ref v) if v == &vec!["/x.jpg".to_string()]));
}

#[test]
fn listing_flow_stops_on_failed_fetch() {
    let (next, action) = ListingFlow::start().step(ListingEvent::ListingFailed(DomainError::LimitReached));
    assert_eq!(next, ListingFlow::Finished);
    assert!(matches!(action, ListingAction::Finish(Err(UseCasesError::Domain(DomainError::LimitReached)))));
}

#[test]
fn listing_flow_reports_failed_publication() {
    let (_, action) = ListingFlow::AwaitingPublication
        .step(ListingEvent::PublicationDone(Err(DomainError::AutomationError("x".to_string()))));
    assert!(matches!(action, ListingAction::Finish(Err(UseCasesError::Domain(DomainError::AutomationError(ref m)))) if m == "x"));
}

#[test]
fn listing_flow_succeeds_after_publication() {
    let (next, action) = ListingFlow::AwaitingPublication.step(ListingEvent::PublicationDone(Ok(())));
    assert_eq!(next, ListingFlow::Finished);
    assert!(matches!(action, ListingAction::Finish(Ok(()))));
}

#[test]
fn domain_error_converts_into_use_case_error() {
    let e: UseCasesError = DomainError::NotFound.into();
    assert!(matches!(e, UseCasesError::Domain(DomainError::NotFound)));
}

fn sample_property() -> Property {
    Property::new(
        vec![
            "https://example.com/image1.jpg".to_string(),
            "https://example.com/image2.jpg".to_string(),
        ],
        Model::Sale,
        PropertyCategory::Apartment,
        3,
        2,
        50000,
        "Rua Example, 123 - São Paulo, SP".to_string(),
        "Apartamento lindo com vista para o mar".to_string(),
        80,
        500,
        800,
        1,
    )
}

/// Runs a property publication the way the server does, with in-memory services.
fn run_property_publication(
    usecase: &AddPropertyUseCase<InMemoryImageRepository, InMemoryMarketplace, InMemoryPropertyService>,
    _url: String,
    _token: String,
    client_id: String,
) -> Result<(), UseCasesError> {
    let mut flow = ListingFlow::start();
    let mut listing = usecase.property_service().property.clone();
    let mut event = ListingEvent::ListingFetched(listing.image().clone());
    loop {
        let (next, action) = flow.step(event);
        flow = next;
        match action {
            ListingAction::StoreImages(urls) => {
                let _repo = usecase.image_repository();
                event = ListingEvent::ImagesStored(urls);
            }
            ListingAction::Publish(paths) => {
                listing.set_image(paths);
                assert!(!client_id.is_empty());
                usecase.webscraping_marketplace_service().properties.lock().unwrap().push(listing.clone());
                event = ListingEvent::PublicationDone(Ok(()));
            }
            ListingAction::Finish(result) => return result,
        }
    }
}

#[test]
fn add_property_success() {
    let image_repository = Arc::new(InMemoryImageRepository);
    let webscraping_marketplace_service = Arc::new(InMemoryMarketplace {
        vehicles: std::sync::Mutex::new(Vec::new()),
        properties: std::sync::Mutex::new(Vec::new()),
    });
    let property_service = Arc::new(InMemoryPropertyService { property: sample_property() });

    let usecase = AddPropertyUseCase::new(image_repository, webscraping_marketplace_service, property_service);

    let url = "https://example.com".to_string();
    let token = "asdASD123".to_string();
    let client_id = "123".to_string();

    let response = run_property_publication(&usecase, url, token, client_id);

    assert!(response.is_ok());
    let published = usecase.webscraping_marketplace_service().properties.lock().unwrap();
    assert_eq!(published.len(), 1);
    assert_eq!(published[0].bedroom(), 3);
}
