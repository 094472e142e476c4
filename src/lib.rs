//! Client library for an optical displacement sensor driven through a native
//! measurement engine: channel discovery, the session protocol, and per-channel
//! statistics over interleaved sample batches.

pub mod address;
pub mod batch;
pub mod error;
pub mod interface;
pub mod protocol;
pub mod session;
pub mod stats;
pub mod value;

pub use batch::Data;
pub use error::{ConfigIssue, ErrCode, ProtocolIssue, SensorError};
pub use interface::Interface;
pub use stats::{RawMean, ScaledBits};
pub use value::{ChannelValue, Value};
pub use session::{Connection, DiscoveryEnd, Sensor, SensorBuilder, Stage};
