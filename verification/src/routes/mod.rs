pub mod login;
pub mod logout;
pub mod notes;
pub mod tags;
pub mod users;

pub use login::{error_chain_fmt, login, LoginError, LoginForm, LoginResponse};
pub use logout::logout;
