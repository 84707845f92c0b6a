//! A client of the Chatex exchange that decides and leaves the sending to others.
//!
//! The library builds the requests of the service, keeps the access token, tells
//! success from failure and says what a call has come to. It does no I/O: a call
//! is a conversation in which the library answers each event with the next action
//! ([`call`]), and whoever drives it sends, waits and decodes. What a call comes
//! to when it is driven faithfully is stated and proved in [`conversation`].

pub mod access_controller;
pub mod call;
pub mod chatex;
pub mod client;
pub mod client_base;
pub mod coin;
pub mod coin_client;
pub mod conversation;
pub mod endpoint;
pub mod error;
pub mod models;
pub mod profile_client;
pub mod request;
pub mod text;

pub use access_controller::AccessController;
pub use client::ChatexClient;
pub use client_base::ClientBase;
pub use coin_client::CoinClient;
pub use profile_client::ProfileClient;
