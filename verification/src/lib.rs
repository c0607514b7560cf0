//! Verified core of the HandShaker SSP client: wire framing, response
//! reassembly, push-event classification, photo-sync planning and the
//! small path, naming and cache rules that surround them.

pub mod error;
pub mod frame;
pub mod assembly;
pub mod text;
pub mod domain;
pub mod snapshot;
pub mod paths;
pub mod sync;
pub mod journal;
pub mod store;
pub mod exif_time;
pub mod thumbnails;
pub mod media;
pub mod remote;
pub mod events;
pub mod usb;
pub mod handshake;
pub mod session;
pub mod keyed;
pub mod discovery;
pub mod host;
pub mod wire_log;
pub mod digest;
