//! The session state of an MQTT 3.1.1 client: which packets are in flight, which packet ids
//! they carry, and what every request and every packet from the broker does to them.
//!
//! The state performs no I/O. It is given requests and incoming packets, and answers with
//! the packet to write to the network, the events for the user and the notices to deliver.

mod std_ext;

pub mod error;
pub mod event;
pub mod laws;
pub mod model;
pub mod mqttbytes;
pub mod notice;
pub mod state;

pub use error::StateError;
pub use event::{Event, Incoming, Outgoing, Request};
pub use notice::{NoticeError, NoticeResult, NoticeTx};
pub use state::MqttState;
