//! Resource-binding translation core for a Direct3D 12 style backend.
//!
//! The library derives root-signature layouts from bind-group layouts,
//! tracks root-parameter bindings with a dirty mask during command
//! recording, builds the four native view-description variants, manages
//! descriptor-heap slots, and drives the swapchain acquire/present
//! lifecycle. Native handles (resources, signatures, descriptors) are
//! carried as plain integer values; the surrounding runtime performs the
//! actual native calls and feeds their results back in.

use vstd::prelude::*;

pub mod adapter;
pub mod binding;
pub mod descriptor;
pub mod device;
pub mod error;
pub mod layout;
pub mod resource;
pub mod swapchain;
pub mod view;

verus! {

/// Marker for the backend as a whole.
#[derive(Clone, Copy)]
pub struct Api;

/// Root signatures hold at most 64 root parameters; each element of the
/// binding state machine takes exactly one of them.
pub const MAX_ROOT_ELEMENTS: usize = 64;

/// Highest number of bind groups a pipeline layout may reference.
pub const MAX_BIND_GROUPS: usize = 4;

/// Highest number of vertex buffer slots tracked per pass.
pub const MAX_VERTEX_BUFFERS: usize = 16;

/// Size of the shared zero buffer used to emulate missing bindings.
pub const ZERO_BUFFER_SIZE: u64 = 256 << 10;

} // verus!
