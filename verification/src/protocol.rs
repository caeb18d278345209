pub mod config;
pub mod effect;
pub mod error;
pub mod identity;
pub mod json;
pub mod llm;
pub mod message;
pub mod mime;
pub mod result;
pub mod schema;
pub mod wire;
