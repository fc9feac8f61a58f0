//! Authentication building blocks: configuration, validation, route planning
//! and generator text transforms, with their behaviour stated and proved.

pub mod text;
pub mod error;
pub mod registry;
pub mod state;
pub mod config;
pub mod validations;
pub mod route_plan;
pub mod route_dsl;
pub mod session;
pub mod mail;
pub mod confirmable;
pub mod recoverable;
pub mod lockable;
pub mod trackable;
pub mod rememberable;
pub mod oauth;
pub mod two_factor;
pub mod forms;
pub mod jwt;
pub mod extractors;
pub mod controllers;
pub mod framework_views;
pub mod chat;
pub mod testing;
pub mod generators;
