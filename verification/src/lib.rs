//! A small file-shipping service: clients upload and download files to and
//! from a storage directory on a server, one framed packet per request.

pub mod cli;
pub mod client;
pub mod codec;
pub mod config;
pub mod packet;
pub mod server;
pub mod utils;
