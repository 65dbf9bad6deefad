//! The control plane of a virtualization service: it allocates virtual addresses,
//! checks where disk partitions come from, plans disk images, tracks the life of
//! each virtual machine and routes its events to the registered listeners.

pub mod callbacks;
pub mod cid;
pub mod compos_client;
pub mod config;
pub mod disk;
pub mod dump;
pub mod error;
pub mod instance;
pub mod message;
pub mod partition;
pub mod platform;
pub mod properties;
pub mod selinux;
pub mod service;
pub mod state;
pub mod text;
pub mod verity;
pub mod vm_service;
