//! Verified core of the BASS 2.4 bindings: the plain-data records that
//! carry no pointers or floats, and the settings that decide which BASS
//! library file gets loaded.

pub mod types;
pub mod onecell;
pub mod loader;
