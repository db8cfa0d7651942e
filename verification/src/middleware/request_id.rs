//! A fresh identifier for every request, echoed in a response header.

use crate::domain::text::{uuid_text, uuid_to_text};
use vstd::prelude::*;

verus! {

/// Whether the 128 bits are those of a random UUID: the four bits of the
/// version spell 4 and the two bits of the variant spell the standard one.
/// The other 122 bits are free.
pub open spec fn is_random_uuid(id: u128) -> bool {
    id & 0x0000_0000_0000_f000_c000_0000_0000_0000u128
        == 0x0000_0000_0000_4000_8000_0000_0000_0000u128
}

/// `Uuid::new_v4`, then `Uuid::as_u128`: the bits of a random UUID. Whatever
/// is drawn, the bits of the version and of the variant are set as a random
/// UUID has them.
#[verifier::external_body]
fn random_uuid() -> (id: u128)
    ensures
        is_random_uuid(id),
{
    uuid::Uuid::new_v4().as_u128()
}

/// Marks a service as one whose requests get an identifier.
pub struct RequestId;

/// The identifier of one request and the header that reports it.
pub struct RequestIdMiddleware {
    request_id: u128,
}

impl RequestIdMiddleware {
    pub closed spec fn request_id(&self) -> u128 {
        self.request_id
    }

    /// The middleware for a request whose identifier has been drawn.
    pub fn with_id(request_id: u128) -> (middleware: RequestIdMiddleware)
        ensures
            middleware.request_id() == request_id,
    {
        RequestIdMiddleware { request_id }
    }

    /// Draws the identifier of a request that has just arrived: a random
    /// UUID.
    pub fn call() -> (middleware: RequestIdMiddleware)
        ensures
            is_random_uuid(middleware.request_id()),
    {
        RequestIdMiddleware::with_id(random_uuid())
    }

    /// The identifier that handlers find among the request's extensions.
    pub fn get_request_id(&self) -> (id: u128)
        ensures
            id == self.request_id(),
    {
        self.request_id
    }

    /// The name of the response header that carries the identifier.
    pub fn header_name() -> (name: String)
        ensures
            name@ == "x-request-id"@,
    {
        "x-request-id".to_owned()
    }

    /// The value of that header: the identifier, hyphenated and in lower
    /// case.
    pub fn header_value(&self) -> (value: String)
        ensures
            value@ == uuid_text(self.request_id()),
    {
        uuid_to_text(self.request_id)
    }
}

} // verus!
