//! Wire protocol and request dispatch for opening a remote directory in a
//! local editor: the request model, the length-prefixed envelope that carries
//! it, host alias resolution and the server's dispatch decisions.

pub mod alias;
pub mod client;
pub mod codec;
pub mod config;
pub mod editor;
pub mod envelope;
pub mod error;
pub mod request;
pub mod server;
pub mod store;
