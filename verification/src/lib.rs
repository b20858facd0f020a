//! The verified core of a command-line client for the Notion API.
pub mod text;
pub mod names;
pub mod json;
pub mod parse;
pub mod errors;
pub mod ids;
pub mod objects;
pub mod paths;
pub mod slug;
pub mod config;
pub mod request;
pub mod client;
pub mod search;
pub mod transport;
pub mod output;
pub mod inputs;
pub mod parents;
pub mod flow;
pub mod commands;
pub mod auth;
pub mod reports;
pub mod wire;
pub mod reading;
pub mod steps;
pub mod verdicts;
pub mod profiles;
pub mod choices;
pub mod views;
pub mod calls;
