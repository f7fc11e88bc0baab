//! The listing backend: where its endpoints are and what its replies mean.
use vstd::prelude::*;
use crate::error::DomainError;

verus! {

/// The backend used when no other address is given.
pub const DEFAULT_BACKEND_URL: &'static str = "https://fast-marketplace-backend.soultech.agency";

/// The backend address for property listings: the first command-line argument
/// after the program name, if there is one, else [`DEFAULT_BACKEND_URL`].
pub fn property_backend_url(args: &Vec<String>) -> (r: String)
    ensures
        args@.len() > 1 ==> r@ == args@[1]@,
        args@.len() <= 1 ==> r@ == DEFAULT_BACKEND_URL@,
{
    if args.len() > 1 {
        args[1].clone()
    } else {
        DEFAULT_BACKEND_URL.to_owned()
    }
}

/// The endpoint that returns a property listing: the backend address and `/property`.
pub fn property_endpoint(base_url: &str) -> (r: String)
    ensures
        r@ == base_url@ + "/property"@,
{
    let mut r = base_url.to_owned();
    r.append("/property");
    r
}

/// The endpoint that returns a vehicle listing: the backend address chosen
/// when the program was built (or [`DEFAULT_BACKEND_URL`]) and `/vehicle`.
pub fn vehicle_endpoint(built_with: Option<&str>) -> (r: String)
    ensures
        built_with matches Some(b) ==> r@ == b@ + "/vehicle"@,
        built_with is None ==> r@ == DEFAULT_BACKEND_URL@ + "/vehicle"@,
{
    let mut r = match built_with {
        Some(b) => b.to_owned(),
        None => DEFAULT_BACKEND_URL.to_owned(),
    };
    r.append("/vehicle");
    r
}

pub const HTTP_OK: u16 = 200;

pub const HTTP_CREATED: u16 = 201;

pub const HTTP_TOO_MANY_REQUESTS: u16 = 429;

/// Whether the reply carries a listing to be read: the status is 200 or 201.
pub open spec fn is_success_status(status: u16) -> bool {
    status == HTTP_OK || status == HTTP_CREATED
}

/// Whether the body of a reply with this status is to be read.
pub fn reply_has_listing(status: u16) -> (r: bool)
    ensures
        r == is_success_status(status),
{
    status == HTTP_OK || status == HTTP_CREATED
}

/// What a reply of the backend means. `status` is `None` when the request could
/// not be sent; `listing` is the body read as a listing, `None` when it was not
/// read or could not be read. A listing comes back only with status 200 or 201;
/// status 429 means the quota is used up; anything else is refused.
pub fn interpret_backend_reply<T>(status: Option<u16>, listing: Option<T>) -> (r: Result<T, DomainError>)
    ensures
        r is Ok <==> (status matches Some(s) && is_success_status(s) && listing is Some),
        r matches Ok(l) ==> listing == Some(l),
        (status == Some(HTTP_TOO_MANY_REQUESTS)) ==> r matches Err(DomainError::LimitReached),
        r is Err && status != Some(HTTP_TOO_MANY_REQUESTS) ==> r matches Err(DomainError::RuleViolation),
{
    match status {
        None => Err(DomainError::RuleViolation),
        Some(s) => {
            if s == HTTP_OK || s == HTTP_CREATED {
                match listing {
                    Some(l) => Ok(l),
                    None => Err(DomainError::RuleViolation),
                }
            } else if s == HTTP_TOO_MANY_REQUESTS {
                Err(DomainError::LimitReached)
            } else {
                Err(DomainError::RuleViolation)
            }
        },
    }
}

} // verus!
