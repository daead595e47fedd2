//! Verified core of a visual network-latency tester.
//!
//! Two peers render elapsed-time readouts on screen; a screenshot containing
//! both readouts is searched for two reference glyphs, each readout is read
//! back as text, and the absolute difference of the two parsed durations is
//! the measured delay. This crate holds the verified measurement pipeline:
//! the template locator, the timecode extraction, the wire codec and session
//! state machine of the peer protocol, and the capture retry loop. Screen
//! grabbing, OCR, networking and the user interface live outside.

pub mod config;

pub mod images;

pub mod locator;

pub mod messages;

pub mod orchestrator;

pub mod pixels;

pub mod session;

pub mod timecode;
