pub mod cursor;
pub mod selection;
pub mod config;
pub mod models;
pub mod items;
pub mod lists;
pub mod state;
