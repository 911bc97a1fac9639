pub mod config;
pub mod crypt;
pub mod ctx;
pub mod error;
pub mod model;
pub mod utils;
pub mod web;
