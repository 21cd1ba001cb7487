//! Discovery of UPnP root devices and resolution of each search response
//! into a device model: the decisions are verified here, the network work is
//! done by the caller.

pub mod error;
pub mod location;
pub mod device;
pub mod resolve;
pub mod fanout;
pub mod report;
