pub mod agents;
pub mod api;
pub mod config;
pub mod connectors;
pub mod json;
pub mod llm;
pub mod text;
pub mod utils;
pub mod world_book;
