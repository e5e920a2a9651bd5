pub mod db_service;
pub mod types;
