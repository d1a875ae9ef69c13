pub mod client;
pub mod config;
pub mod mock;
pub mod payload;
pub mod request;
pub mod response;
