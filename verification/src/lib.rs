pub mod text;
pub mod reasoning;
pub mod chat;
pub mod prompt;
pub mod git;
pub mod json;
pub mod ollama;
pub mod command;
