pub mod input;
pub mod session;
