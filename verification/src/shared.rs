pub mod config;
pub mod db;
pub mod sql_builder;
