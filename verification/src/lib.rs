//! Packing of application artifacts into a block-addressed disk image.
//!
//! The crate has two halves. The block side adapts a host file to a device
//! of fixed 512-byte blocks ([`BlockFile`]) and sizes the image that backs
//! it. The packing side derives the logical names of the artifacts and drives
//! the run as a state machine ([`Packer`]) whose actions a thin driver
//! carries out against the host and the filesystem engine.
pub mod device;
pub mod fault;
pub mod host;
pub mod name;
pub mod pack;
pub mod run;

pub use fault::{BlockFault, HostFault, PackFault};
pub use host::{available, filled, overlay, resized, HostFile, MemFile};
pub use device::{
    block_at, block_offset, block_start, complete_block, holds_block, image_after_write, image_len,
    image_len_of, read_verdict, with_block, write_verdict, BlockFile, BLOCK_SZ,
};
pub use name::{
    artifact_path, derive_names, derived, dot_at, entry_fault, entry_ok, first_bad, has_dot,
    image_path, logical_name, stem,
};
pub use pack::{
    respond, ActionView, EventView, PackAction, PackEvent, Packer, PackerView, PhaseView, Stage,
    INODE_AREA,
};
pub use run::{faultless_actions, faultless_events, packed, run, served};
