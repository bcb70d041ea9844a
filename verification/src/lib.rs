pub mod text;
pub mod order;
pub mod docker;
pub mod config;
pub mod app;
pub mod keys;
pub mod blit;
pub mod view;
pub mod laws;
