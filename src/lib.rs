//! A model of the touchpad settings page: the sections it shows, the
//! controls each section holds for a given touchpad configuration, and the
//! messages those controls emit.

pub mod config;
pub mod label;
pub mod page;
pub mod section;
