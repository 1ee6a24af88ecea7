//! Verified core of the Nova voxel display controller: the wire format of the
//! Nova sync and pixel packets, the decisions of the hardware driver, the
//! persistent settings and the web command language.

pub mod checksum;
pub mod protocol;
pub mod driver;
pub mod text;
pub mod content;
pub mod app_state;
pub mod persistence;
pub mod command;
pub mod classic;
pub mod audio;
pub mod files;
