//! A level-triggered reconciler for the `TestResource` custom resource.

pub mod action;
mod clock;
pub mod config;
pub mod context;
pub mod controller;
pub mod error;
pub mod laws;
pub mod reconciler;
pub mod resource;
