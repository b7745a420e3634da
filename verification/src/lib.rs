//! Managed-runtime access to extended file attributes (xattrs).
//!
//! The crate has three layers, leaf first: the error translator
//! ([`errors`]), which turns a raw OS failure into one member of a closed
//! symbolic vocabulary; the binary marshaller ([`marshal`]), which copies
//! attribute names and values verbatim as byte sequences with no text
//! interpretation; and the attribute operations ([`ops`]), which call the
//! platform xattr interface and report every failure through the
//! translator. The crate holds no state of its own: each operation is one
//! synchronous pass-through to the operating system.

use vstd::prelude::*;

pub mod errors;
pub mod marshal;
pub mod ops;

verus! {

/// Liveness probe for the host runtime, with no side effects: once this
/// layer is loaded it always answers `true`, so a host can tell "the
/// native layer failed to load" apart from "an operation failed".
pub fn native_layer_available() -> (r: bool)
    ensures
        r == true,
{
    true
}

} // verus!
