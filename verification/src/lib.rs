//! Verified core of the SmolVM native graphics agent: GPU renderer flags,
//! graphics status derivation, the local shared-memory display protocol and
//! frame ring layout, and the input translation state machine.

pub mod gpu_flags;
pub mod config;
pub mod text;
pub mod paths;
pub mod status;
pub mod shm_protocol;
pub mod frame_ring;
pub mod frame_convert;
pub mod input_state;
pub mod input_device;
pub mod boot_config;
