//! The auxiliary files of a release: the geo databases and the wintun driver.

pub mod geodat;
pub mod wintun;
