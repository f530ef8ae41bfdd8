//! The run of one container, from the user's request to the last cleanup.

pub mod run;
pub mod setup_container_network;

pub use run::run;
pub use setup_container_network::{cleanup_container_network, setup_container_network_parent};
