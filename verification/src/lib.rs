//! A small intrusion-detection library: stateful, threshold-based heuristics
//! over parsed packet headers, grouped by IPv4 source address.
//!
//! The [`detector::Detector`] engine owns all per-source state and classifies
//! each packet as benign or intrusive; [`headers`] holds the plain-value view
//! of a parsed packet that the engine consumes, and [`alert`] turns verdicts
//! into the strings an alert sink emits.

pub mod alert;
pub mod detector;
pub mod headers;
