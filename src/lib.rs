//! Live export of application gauges: a registry of captured gauges, the
//! framing of the scope wire protocol, and the decisions of the server and
//! client sessions that stream registry snapshots to observers.
pub mod client;
pub mod error;
pub mod packet;
pub mod pairs;
pub mod protocol;
pub mod recorder;
pub mod registry;
pub mod server;

pub use error::Error;
pub use packet::{ClientSettings, Info, MetricInfo, Packet, Snapshot};
