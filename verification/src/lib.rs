pub mod configuration;
pub mod models;
pub mod registry;
pub mod startup;
pub mod text;
pub mod utils;
