//! The publishing use cases: fetch a listing from the backend, store its
//! images locally, then publish it with the stored images. The services do
//! their work outside the library; [`ListingFlow`] decides each next step.
use vstd::prelude::*;
use std::sync::Arc;
use crate::error::{DomainError, UseCasesError};

verus! {

/// Publishes a property listing.
pub struct AddPropertyUseCase<ImageRepository, MarketplaceService, PropertyService> {
    image_repository: Arc<ImageRepository>,
    webscraping_marketplace_service: Arc<MarketplaceService>,
    property_service: Arc<PropertyService>,
}

impl<I, W, P> AddPropertyUseCase<I, W, P> {
    pub closed spec fn image_repository_of(&self) -> Arc<I> {
        self.image_repository
    }

    pub closed spec fn marketplace_service_of(&self) -> Arc<W> {
        self.webscraping_marketplace_service
    }

    pub closed spec fn property_service_of(&self) -> Arc<P> {
        self.property_service
    }

    pub fn new(
        image_repository: Arc<I>,
        webscraping_marketplace_service: Arc<W>,
        property_service: Arc<P>,
    ) -> (r: Self)
        ensures
            r.image_repository_of() == image_repository,
            r.marketplace_service_of() == webscraping_marketplace_service,
            r.property_service_of() == property_service,
    {
        Self { image_repository, webscraping_marketplace_service, property_service }
    }

    pub fn image_repository(&self) -> (r: &Arc<I>)
        ensures
            *r == self.image_repository_of(),
    {
        &self.image_repository
    }

    pub fn webscraping_marketplace_service(&self) -> (r: &Arc<W>)
        ensures
            *r == self.marketplace_service_of(),
    {
        &self.webscraping_marketplace_service
    }

    pub fn property_service(&self) -> (r: &Arc<P>)
        ensures
            *r == self.property_service_of(),
    {
        &self.property_service
    }
}

/// Publishes a vehicle listing.
pub struct AddVehicleUseCase<ImageRepository, MarketplaceService, VehicleService> {
    image_repository: Arc<ImageRepository>,
    webscraping_marketplace_service: Arc<MarketplaceService>,
    vehicle_service: Arc<VehicleService>,
}

impl<I, W, V> AddVehicleUseCase<I, W, V> {
    pub closed spec fn image_repository_of(&self) -> Arc<I> {
        self.image_repository
    }

    pub closed spec fn marketplace_service_of(&self) -> Arc<W> {
        self.webscraping_marketplace_service
    }

    pub closed spec fn vehicle_service_of(&self) -> Arc<V> {
        self.vehicle_service
    }

    pub fn new(
        image_repository: Arc<I>,
        webscraping_marketplace_service: Arc<W>,
        vehicle_service: Arc<V>,
    ) -> (r: Self)
        ensures
            r.image_repository_of() == image_repository,
            r.marketplace_service_of() == webscraping_marketplace_service,
            r.vehicle_service_of() == vehicle_service,
    {
        Self { image_repository, webscraping_marketplace_service, vehicle_service }
    }

    pub fn image_repository(&self) -> (r: &Arc<I>)
        ensures
            *r == self.image_repository_of(),
    {
        &self.image_repository
    }

    pub fn webscraping_marketplace_service(&self) -> (r: &Arc<W>)
        ensures
            *r == self.marketplace_service_of(),
    {
        &self.webscraping_marketplace_service
    }

    pub fn vehicle_service(&self) -> (r: &Arc<V>)
        ensures
            *r == self.vehicle_service_of(),
    {
        &self.vehicle_service
    }
}

// ─── The steps of a publication ─────────────────────────────────────────────

/// Where a publication stands. It starts by fetching the listing.
#[derive(Clone, Copy, Debug, PartialEq, Eq, Structural)]
pub enum ListingFlow {
    AwaitingListing,
    AwaitingImages,
    AwaitingPublication,
    Finished,
}

/// What the service asked last reported.
#[derive(Debug)]
pub enum ListingEvent {
    /// The backend returned the listing; these are its image addresses.
    ListingFetched(Vec<String>),
    /// The backend did not return the listing.
    ListingFailed(DomainError),
    /// The image store kept these files.
    ImagesStored(Vec<String>),
    /// The marketplace reported how the publication went.
    PublicationDone(Result<(), DomainError>),
}

/// What to do next.
#[derive(Debug)]
pub enum ListingAction {
    /// Store these images.
    StoreImages(Vec<String>),
    /// Replace the listing's images by these files and publish it.
    Publish(Vec<String>),
    /// The use case is over, with this result.
    Finish(Result<(), UseCasesError>),
}

/// Whether `event` is the report that the step `flow` waits for.
pub open spec fn awaits(flow: ListingFlow, event: ListingEvent) -> bool {
    match flow {
        ListingFlow::AwaitingListing => event is ListingFetched || event is ListingFailed,
        ListingFlow::AwaitingImages => event is ImagesStored,
        ListingFlow::AwaitingPublication => event is PublicationDone,
        ListingFlow::Finished => false,
    }
}

/// The next step and action after `event`.
pub open spec fn listing_step(event: ListingEvent) -> (ListingFlow, ListingAction) {
    match event {
        ListingEvent::ListingFetched(images) => (ListingFlow::AwaitingImages, ListingAction::StoreImages(images)),
        ListingEvent::ListingFailed(e) => (ListingFlow::Finished, ListingAction::Finish(Err(UseCasesError::Domain(e)))),
        ListingEvent::ImagesStored(paths) => (ListingFlow::AwaitingPublication, ListingAction::Publish(paths)),
        ListingEvent::PublicationDone(Ok(())) => (ListingFlow::Finished, ListingAction::Finish(Ok(()))),
        ListingEvent::PublicationDone(Err(e)) => (ListingFlow::Finished, ListingAction::Finish(Err(UseCasesError::Domain(e)))),
    }
}

impl ListingFlow {
    /// A new publication: the first thing to do is to fetch the listing.
    pub fn start() -> (r: ListingFlow)
        ensures
            r is AwaitingListing,
    {
        ListingFlow::AwaitingListing
    }

    /// Whether `event` is the report this step waits for.
    pub fn accepts(&self, event: &ListingEvent) -> (r: bool)
        ensures
            r == awaits(*self, *event),
    {
        match self {
            ListingFlow::AwaitingListing => match event {
                ListingEvent::ListingFetched(_) | ListingEvent::ListingFailed(_) => true,
                _ => false,
            },
            ListingFlow::AwaitingImages => match event {
                ListingEvent::ImagesStored(_) => true,
                _ => false,
            },
            ListingFlow::AwaitingPublication => match event {
                ListingEvent::PublicationDone(_) => true,
                _ => false,
            },
            ListingFlow::Finished => false,
        }
    }

    /// Takes the report of the last service call and says what comes next:
    /// the fetched listing's images are stored, the stored files are published
    /// with the listing, and the first failure ends the use case with that
    /// error. The use case succeeds only when the publication succeeded.
    pub fn step(self, event: ListingEvent) -> (r: (ListingFlow, ListingAction))
        requires
            awaits(self, event),
        ensures
            r == listing_step(event),
            r.1 matches ListingAction::Finish(res) ==> r.0 is Finished,
            r.1 == ListingAction::Finish(Ok(())) ==> self is AwaitingPublication,
            r.1 == ListingAction::Finish(Ok(())) ==> event matches ListingEvent::PublicationDone(Ok(_)),
    {
        match event {
            ListingEvent::ListingFetched(images) => (ListingFlow::AwaitingImages, ListingAction::StoreImages(images)),
            ListingEvent::ListingFailed(e) => (ListingFlow::Finished, ListingAction::Finish(Err(UseCasesError::Domain(e)))),
            ListingEvent::ImagesStored(paths) => (ListingFlow::AwaitingPublication, ListingAction::Publish(paths)),
            ListingEvent::PublicationDone(res) => {
                match res {
                    Ok(()) => (ListingFlow::Finished, ListingAction::Finish(Ok(()))),
                    Err(e) => (ListingFlow::Finished, ListingAction::Finish(Err(UseCasesError::Domain(e)))),
                }
            },
        }
    }
}

} // verus!
