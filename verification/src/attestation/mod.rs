pub mod platform;
pub mod quote;
