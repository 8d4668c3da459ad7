//! Concrete overlay backend plugins.
pub mod fuse_overlay;
pub mod kernel_overlay;
pub mod unionfs;

pub use fuse_overlay::FuseOverlayFs;
pub use kernel_overlay::KernelOverlayFs;
pub use unionfs::UnionfsFuse;
