//! Listing automation for an online marketplace: the domain entities, the
//! validation and selector-building rules, and the decision procedures that
//! drive a browser session.
pub mod backend;
pub mod dtos;
pub mod error;
pub mod forms;
pub mod images;
pub mod item;
pub mod laws;
pub mod marketplace;
pub mod models;
pub mod options;
pub mod property;
pub mod selectors;
pub mod text;
pub mod updater;
pub mod usecases;
pub mod vehicle;
