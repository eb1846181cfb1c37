//! Values stored in layers and the state threaded through point reads.

use vstd::prelude::*;
use crate::ids::{Key, Lsn};

verus! {

/// An opaque stored value: either a page image or a WAL record, carried
/// here as plain bytes.
#[derive(Debug, Clone, PartialEq, Eq)]
pub struct Value {
    pub bytes: Vec<u8>,
}

/// One entry of a layer's decoded content.
#[derive(Debug)]
pub struct LayerRecord {
    pub key: Key,
    pub lsn: Lsn,
    pub value: Value,
}

/// The outcome of asking one layer to contribute to a point read.
#[derive(Clone, Copy, Debug, PartialEq, Eq, Structural)]
pub enum ValueReconstructResult {
    /// Enough data was gathered to reconstruct the value.
    Complete,
    /// Data was gathered but an earlier layer must also be visited.
    Continue,
    /// This layer holds nothing for the requested key.
    Missing,
}

/// Data gathered so far while reconstructing one value: the WAL records
/// found, newest first, and the base image they apply to, if any.
#[derive(Debug)]
pub struct ValueReconstructState {
    pub records: Vec<(Lsn, Value)>,
    pub img: Option<(Lsn, Value)>,
}

} // verus!
