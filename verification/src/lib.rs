//! In-memory placeholders for storage layers that live only in a remote
//! object store, together with the machinery that coordinates their
//! download and their replacement by locally resident layers.

pub mod ids;
pub mod error;
pub mod value;
pub mod hex;
pub mod filename;
pub mod watch;
pub mod materialized;
pub mod remote_layer;
pub mod layer_map;
