//! Version information for a build, taken from the project's git history.
//!
//! The library renders the declaration of a `GIT_BUILD_VERSION` constant from
//! the output of `git describe --tags --always`, decides whether the generated
//! file on disk is already up to date, and drives one run of the whole
//! operation as a state machine whose input and output are plain values.
//! Running the commands and touching the file system is left to the caller.

pub mod describe;
pub mod render;
pub mod run;
pub mod sync;
