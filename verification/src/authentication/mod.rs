pub mod password;
pub mod session;

pub use password::{
    validate_credentials, AuthError, Credentials, StoreError, StoredCredentials,
};
pub use session::{AuthenticatedUser, GateError, SessionAction, TypedSession};
