//! A client library core for a remote machine-learning service: wait
//! policies, outcome classification, resource polling and bounded parallel
//! execution, with their contracts proved.

pub mod client;
pub mod credentials;
pub mod driver;
pub mod errors;
pub mod foreign;
pub mod id;
pub mod input;
pub mod poll;
pub mod resource;
pub mod script;
pub mod status;
pub mod text;
pub mod wait;
