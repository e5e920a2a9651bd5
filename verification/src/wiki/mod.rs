pub mod db_service;
pub mod route;
pub mod types;
