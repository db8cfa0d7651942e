pub mod me;
pub mod register;
