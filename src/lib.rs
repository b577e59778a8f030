//! A chat client's conversation core: an actor that owns the transcript and
//! the model configuration and handles one request at a time, and the user
//! interface's model of the conversation that feeds it requests and applies
//! its responses.

pub mod actor;
pub mod chat;
pub mod laws;
pub mod message;
pub mod models;
pub mod text;
