//! Application-layer packet codec of the ESP3 serial gateway protocol.

pub mod address;
pub mod enocean;
pub mod frame;
pub mod packet;

pub use address::{broadcast, Address};
pub use enocean::{ReturnCode, Rorg};
pub use frame::{ESP3Frame, ESP3FrameRef, FrameView};
pub use packet::{
    CommonCommand, EEPProfileCode, Event, Packet, ParseError, RadioErp1, Response, ResponseCode,
    Security, SubtelNum, Version, VersionResponse,
};
