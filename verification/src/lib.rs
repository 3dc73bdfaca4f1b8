//! Verified core of a desktop client for Artifex servers: message
//! interpolation, the connection workflow, and the state that each page of
//! the user interface keeps.

pub mod client;
pub mod command;
pub mod execution;
pub mod i18n;
pub mod pages;
pub mod secrets;
pub mod widgets;
pub mod window;
