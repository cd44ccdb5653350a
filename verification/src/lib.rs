//! StreamVault core: the decisions and text formats behind a small
//! token-addressed video streaming service.

pub mod text;
pub mod range;
pub mod media;
pub mod token;
pub mod error;
pub mod models;
pub mod upload;
pub mod stream;
pub mod transcode;
pub mod config;
