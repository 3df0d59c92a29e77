//! A client for the Sanity.io content API: configuration, request
//! URLs, headers and bodies are built here with proved contracts; a
//! caller's transport performs the exchanges.

pub mod config;
pub mod encode;
pub mod json;
pub mod sanity_client;
