//! Identifiers and ranges that make up a layer's identity: the owning
//! tenant and timeline, the key space, and log sequence numbers.

use vstd::prelude::*;

verus! {

/// Identifier of the tenant that owns a timeline.
#[derive(Clone, Copy, Debug, PartialEq, Eq, Hash, Structural)]
pub struct TenantId(pub u128);

/// Identifier of a timeline within a tenant.
#[derive(Clone, Copy, Debug, PartialEq, Eq, Hash, Structural)]
pub struct TimelineId(pub u128);

/// A point in the key space of the storage engine.
#[derive(Clone, Copy, Debug, PartialEq, Eq, Hash, Structural)]
pub struct Key(pub u64);

/// A log sequence number: a point in the total order of write history.
#[derive(Clone, Copy, Debug, PartialEq, Eq, Hash, Structural)]
pub struct Lsn(pub u64);

/// A half-open key range `[start, end)`.
#[derive(Clone, Copy, Debug, PartialEq, Eq, Hash, Structural)]
pub struct KeyRange {
    pub start: Key,
    pub end: Key,
}

/// A half-open range of log sequence numbers `[start, end)`.
#[derive(Clone, Copy, Debug, PartialEq, Eq, Hash, Structural)]
pub struct LsnRange {
    pub start: Lsn,
    pub end: Lsn,
}

/// Whether a layer is a full snapshot at one LSN or a set of changes
/// over an LSN range.
#[derive(Clone, Copy, Debug, PartialEq, Eq, Hash, Structural)]
pub enum LayerKind {
    Image,
    Delta,
}

/// The immutable identity of a layer.  Two layers with equal identity
/// are the same layer.
#[derive(Clone, Copy, Debug, PartialEq, Eq, Hash, Structural)]
pub struct LayerIdentity {
    pub tenantid: TenantId,
    pub timelineid: TimelineId,
    pub key_range: KeyRange,
    pub lsn_range: LsnRange,
    pub kind: LayerKind,
}

} // verus!
