//! Service interfaces compiled into a tagged request/response protocol, with a
//! dispatcher, client stubs and a composition adapter that tunnels nested
//! services through their parent's channel.

pub mod client;
pub mod format;
pub mod model;
pub mod parse;
pub mod protocol;
pub mod reqwest;
pub mod server;
pub mod transport;
pub mod wire;
