//! Navigation model of a small image viewer: which files of a directory are
//! images, which of them is shown, and what is handed to the display.

pub mod laws;
pub mod paths;
pub mod pixels;
pub mod scan;
pub mod viewer;
