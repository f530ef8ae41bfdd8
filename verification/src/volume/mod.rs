//! Host directories that appear inside the container.

pub mod impl_volume;
pub mod volume;
pub mod volume_manager;

pub use impl_volume::ImplVolume;
pub use volume::{MountMode, VolumeMount};
pub use volume_manager::VolumeManager;
