pub mod api;
pub mod auth;
pub mod laws;
pub mod model;
pub mod store;
