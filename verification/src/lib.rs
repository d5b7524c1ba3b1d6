pub mod text;
pub mod config;
pub mod buttondown;
pub mod app;
pub mod keys;
pub mod view;
pub mod laws;
