//! Renders descriptions of network interfaces and virtual network devices
//! as unit files: a file name that carries the unit's priority, and a
//! document of bracketed sections with one `key=value` per line.
//!
//! Every function states the exact text it produces, as a sequence of
//! characters, and is proved to produce it.

pub mod device;
pub mod interface;
pub mod ip;
pub mod mac;
pub mod text;
pub mod unit;

pub use crate::device::{Device, Section};
pub use crate::interface::{Identifier, Interface};
pub use crate::ip::{IpAddr, IpNetwork, Ipv4Addr, Ipv6Addr, NetworkRoute};
pub use crate::mac::MacAddr;
