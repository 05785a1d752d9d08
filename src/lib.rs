//! Packet protocol, progress tracking and boot decisions of a serial firmware
//! updater.
pub mod boot;
pub mod checksum;
pub mod ota;
pub mod section_mark;
pub mod session;
