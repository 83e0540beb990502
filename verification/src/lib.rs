//! Verified core of a boot-repair rescue tool.
use vstd::prelude::*;

pub mod text;
pub mod distros;
pub mod fstab;
pub mod blkdev;
pub mod app;
pub mod host;
pub mod grub;
pub mod repair;
pub mod network;
pub mod mounts;
pub mod init;
pub mod laws;

verus! {
}
