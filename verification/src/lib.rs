//! Patching logic for a game executable: locating the install directory,
//! deciding on a backup, and substituting fixed byte patterns that hold the
//! engine's aspect-ratio and viewport constants, plus the list of auxiliary
//! files a shader-injection layer needs.
//!
//! All file, terminal and network traffic stays outside this crate; the
//! functions here work on plain bytes and strings and are verified.

use vstd::prelude::*;

pub mod backup;
pub mod download;
pub mod locate;
pub mod patch;
pub mod ratio;

verus! {

} // verus!
