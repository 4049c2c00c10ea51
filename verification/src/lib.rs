pub mod auth;
pub mod domain;
pub mod models;
pub mod strutil;
pub mod ui;
pub mod utils;
