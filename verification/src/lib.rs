pub mod bang;
pub mod cache;
pub mod catalog;
pub mod config;
pub mod encode;
pub mod error;
pub mod location;
pub mod pages;
pub mod query;
pub mod render;
pub mod resolver;
pub mod state;
pub mod template;
pub mod text;
