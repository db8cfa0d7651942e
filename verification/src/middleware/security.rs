//! The cross-origin policy of the service.

use vstd::prelude::*;

verus! {

/// What browsers of other origins are allowed.
pub struct CorsPolicy {
    pub allowed_origin: String,
    pub allowed_methods: Vec<String>,
    pub allowed_headers: Vec<String>,
    pub exposed_headers: Vec<String>,
    pub max_age: usize,
    pub supports_credentials: bool,
}

/// The policy for the one origin that may call the service: the five
/// methods of the API, the three request headers it reads, the request
/// identifier exposed, preflights cached for an hour, credentials allowed.
pub fn configure_cors(allowed_origin: &str) -> (policy: CorsPolicy)
    ensures
        policy.allowed_origin@ == allowed_origin@,
        policy.allowed_methods@.len() == 5,
        policy.allowed_methods@[0]@ == "GET"@,
        policy.allowed_methods@[1]@ == "POST"@,
        policy.allowed_methods@[2]@ == "PUT"@,
        policy.allowed_methods@[3]@ == "DELETE"@,
        policy.allowed_methods@[4]@ == "OPTIONS"@,
        policy.allowed_headers@.len() == 3,
        policy.allowed_headers@[0]@ == "authorization"@,
        policy.allowed_headers@[1]@ == "accept"@,
        policy.allowed_headers@[2]@ == "content-type"@,
        policy.exposed_headers@.len() == 1,
        policy.exposed_headers@[0]@ == "x-request-id"@,
        policy.max_age == 3600,
        policy.supports_credentials,
{
    let mut allowed_methods: Vec<String> = Vec::new();
    allowed_methods.push("GET".to_owned());
    allowed_methods.push("POST".to_owned());
    allowed_methods.push("PUT".to_owned());
    allowed_methods.push("DELETE".to_owned());
    allowed_methods.push("OPTIONS".to_owned());
    let mut allowed_headers: Vec<String> = Vec::new();
    allowed_headers.push("authorization".to_owned());
    allowed_headers.push("accept".to_owned());
    allowed_headers.push("content-type".to_owned());
    let mut exposed_headers: Vec<String> = Vec::new();
    exposed_headers.push("x-request-id".to_owned());
    CorsPolicy {
        allowed_origin: allowed_origin.to_owned(),
        allowed_methods,
        allowed_headers,
        exposed_headers,
        max_age: 3600,
        supports_credentials: true,
    }
}

} // verus!
