//! Verified core of a keyboard-driven terminal client for CircleCI pipelines.
//!
//! The library holds the state of every screen and widget and the rules that
//! drive them: filtering, selection, pagination, log range parsing, duration
//! formatting, cache validity and the application's event handling.
//! Rendering and input/output live in the companion binary.

pub mod text;
pub mod theme;
pub mod keys;
pub mod clock;
pub mod api;
pub mod widgets;
pub mod preferences;
pub mod screens;
pub mod application;
pub mod config;
pub mod git;
pub mod cache;
pub mod report;
