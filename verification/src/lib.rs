//! Client SDK for an HTTP model-routing gateway.
//!
//! The crate is organised around three layers:
//! - [`client`]: the HTTP client core — a [`client::Transport`] capability
//!   that performs one network exchange, and a [`client::Client`] that owns a
//!   normalized base URL, a map of default headers, and a transport;
//! - [`operations`]: one function per remote endpoint, each binding an HTTP
//!   method and a URL-path template;
//! - [`models`]: the JSON request and response shapes of the remote API.
//!
//! Path templates are resolved by [`path_template`], and header and
//! path-parameter mappings are carried by [`string_map::StringMap`].

#![allow(non_snake_case)]

pub mod client;
pub mod models;
pub mod operations;
pub mod path_template;
pub mod string_map;
