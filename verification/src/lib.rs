pub mod auth;
pub mod catcher;
pub mod config;
pub mod db;
pub mod project;
pub mod state;
pub mod test_hub;
pub mod text;
pub mod types;
pub mod utils;
pub mod uuid_text;
pub mod wiki;
