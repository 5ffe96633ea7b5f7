//! Keeps track of which desktop windows belong to which running process.

pub mod application;
pub mod associations;
pub mod info;
pub mod x11_client;
