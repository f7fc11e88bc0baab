//! The option values of the marketplace listing forms.
pub mod item;
pub mod property;
pub mod vehicle;
