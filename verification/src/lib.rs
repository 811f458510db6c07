//! Verified core of a Google Play details and download service.
pub mod text;
pub mod strmap;
pub mod consts;
pub mod error;
pub mod form;
pub mod device;
pub mod build_config;
pub mod gpapi;
pub mod login;
pub mod download;
pub mod reply;
pub mod channel;
pub mod merge;
pub mod client;
pub mod registry;
pub mod api;
