//! Inspect the file listing of a remote ZIP archive from its trailing
//! metadata alone: the End-Of-Central-Directory record (EOCD) and the
//! Central-Directory (CD) file headers it points at.
//!
//! The decoders here work on plain byte buffers; fetching those buffers
//! over HTTP is left to the surrounding application.

use vstd::prelude::*;

pub mod field;
pub mod signature;
pub mod eocd;
pub mod cd;
pub mod split;
pub mod catalog;
pub mod proxy;

verus! {

/// Whether a record uses the legacy 32-bit ZIP layout or the ZIP64 layout.
#[derive(Debug, Clone, Copy, PartialEq, Eq, Structural)]
pub enum WordSize {
    Bit32,
    Bit64,
}

} // verus!
