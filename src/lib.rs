pub mod catalog;
pub mod laws;
pub mod manager;
mod render;
