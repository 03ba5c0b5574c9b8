//! Finds Yeelight smart lights on the local network and controls them, after the
//! vendor's LAN control protocol.
//!
//! The library decides and the caller moves the bytes. A [`YeeClient`] begins a
//! [`client::Search`], which turns the datagrams that answer the discovery probe
//! into [`Light`]s. A command on a light opens a [`command::Exchange`] that holds
//! the line to write; the lines read back are handed to [`Light::receive`] until
//! the command has ended.

pub mod addr;
pub mod advert;
pub mod client;
pub mod command;
pub mod err;
pub mod fields;
pub mod light;
pub mod req;
pub mod text;

pub use crate::client::{
    all_local, multicast_addr, YeeClient, DEFAULT_LOCAL_PORT, MULTICAST_PORT, SEARCH_MSG,
};
pub use crate::err::YeeError;
pub use crate::light::Light;
