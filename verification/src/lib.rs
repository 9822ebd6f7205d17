//! Core state, rules and text processing of a terminal Git client.

pub mod app;
pub mod clock;
pub mod config;
pub mod event;
pub mod git;
pub mod input;
pub mod ui;
pub mod util;
