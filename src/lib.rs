//! Locating and decoding the on-disk label of a ZFS pool member device.
//!
//! The library is pure: it decodes bytes that the caller has read from the
//! device, and computes where on the device those bytes are to be found.

pub mod binary;
pub mod error;
pub mod nvlist;
pub mod unix;
pub mod xdr;
pub mod vdev;
