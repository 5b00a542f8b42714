//! Virtual devices: where the labels of a physical device lie.

pub mod label;
