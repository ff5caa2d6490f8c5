//! Codec for two small versioned binary envelopes that wrap a raw sample
//! payload together with its calibration metadata.

pub mod attributes;
mod cursor;
pub mod error;
pub mod flow;
pub mod laws;
pub mod layout;
pub mod raster;
pub mod wire;

pub use attributes::DataAttributes;
pub use error::DecodeError;
pub use flow::{FlowContainer, FlowInfo};
pub use layout::Layout;
pub use raster::{DataContainer, DataInfo};
