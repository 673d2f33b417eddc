pub mod api;
pub mod script;
pub mod logger;
