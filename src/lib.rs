//! Target description and process-bootstrap logic for 32-bit big-endian
//! PowerPC programs running under the Classic Mac OS Code Fragment Manager.
//!
//! - `layout`: reading the facts a compiler needs out of a data-layout string.
//! - `target`: the target descriptor, its consistency rules and the linker
//!   command line composed from it.
//! - `runtime`: the decisions of the startup and panic paths, as a state
//!   machine that a freestanding shim drives.
pub mod layout;
pub mod runtime;
pub mod target;
