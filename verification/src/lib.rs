//! A Wake-on-LAN and remote-sleep command engine with a durable,
//! paginated command log.
//!
//! The crate parses hardware addresses, builds the 102-byte magic
//! packet, classifies the outcome of each wake or sleep attempt into
//! the message that is logged and shown, stores every attempt in an
//! append-only SQLite log, and derives sorted, paginated views of that
//! log. The network and HTTP surfaces around it hand in plain values
//! and take plain values back.

pub mod db;
pub mod dispatch;
pub mod mac;
pub mod models;
pub mod templates;
pub mod text;
pub mod wol;
