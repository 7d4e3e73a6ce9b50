//! An image viewer's core: argument and path classification, a cyclic cursor
//! over the supported image files of a folder, the fit of an image into the
//! usable screen area, and the mapping of input events to navigation.

pub mod args;
pub mod config;
pub mod fit;
pub mod paths;
pub mod folder;
pub mod controls;
