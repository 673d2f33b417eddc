pub mod app;
pub mod components;
pub mod config;
pub mod event;
pub mod document;
pub mod utils;
