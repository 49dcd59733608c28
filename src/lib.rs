//! Discovery of USB-attached storage disks through the by-path device directory.
use vstd::prelude::*;

pub mod stream;
pub mod text;

verus! {

/// The directory whose entries name each disk by the bus path it is attached through.
pub const DISK_DIR: &'static str = "/dev/disk/by-path/";

} // verus!
