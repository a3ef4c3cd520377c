//! A declarative description of a desktop application's native menu bar.
//!
//! The library decides which submenus the menu bar holds on a given platform
//! and in a given build mode, and which items each of them lists. The result
//! is plain data that a GUI shell turns into native menu objects.

pub mod laws;
pub mod layout;
pub mod model;
pub mod platform;
