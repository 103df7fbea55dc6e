//! Peer-to-peer transport for kitsune2 over iroh connections.
//!
//! Messages travel as frames over one stream per direction. The first frame on a connection is a
//! preflight, which tells the peer the URL by which to reach the sender; all others hold data. The
//! library holds what the transport computes and decides: the frames, the URLs, the state of each
//! connection and the steps by which streams are read, messages are sent and the transport starts.
//! Whoever runs it does the input and output, and hands back what happened.
pub mod config;
pub mod connection_context;
pub mod connection_reader;
pub mod error;
pub mod frame;
pub mod frame_send;
pub mod incoming;
pub mod laws;
pub mod outgoing;
pub mod outside;
pub mod peer_map;
pub mod startup;
pub mod text;
pub mod transport;
pub mod url;

pub use config::{IrohTransportConfig, IrohTransportFactory, IrohTransportModConfig};
