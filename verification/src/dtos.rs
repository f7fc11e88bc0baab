//! The bodies of the HTTP requests and replies of the local server.
use vstd::prelude::*;

verus! {

/// Asks to publish the property listing found at `url` of the backend.
#[derive(Debug)]
pub struct AddPropertyUseCaseRequest {
    pub url: String,
    pub token: String,
    pub client_id: String,
}

/// The (empty) reply to a successful publication.
#[derive(Debug)]
pub struct AddPropertyUseCaseResponse {}

/// Asks to open the sign-in window for the browser profile `client_id`.
#[derive(Debug)]
pub struct AuthMarketplaceUseCaseRequest {
    pub client_id: String,
}

/// The (empty) reply to a sign-in.
#[derive(Debug)]
pub struct AuthMarketplaceUseCaseResponse {}

} // verus!
