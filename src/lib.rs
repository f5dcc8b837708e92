//! Management of Linux cgroup-v1 cpusets.
//!
//! The library holds the verified core: the codec for the kernel's textual
//! CPU lists (`cpuset.cpus`), the decoding of a cpuset directory's control
//! files into a [`SetState`], and the decisions of the controller operations.
//! Filesystem and process work is left to the caller.
use vstd::prelude::*;

pub mod controller;
pub mod error;
pub mod options;
pub mod range;
pub mod round_trip;
pub mod set;

pub use controller::{CpuSet, CPUSET_PATH};
pub use error::Error;
pub use range::{trim_line_endings, CpuRange};
pub use set::{SetState, CPUSET_CPUS, CPUSET_CPU_EXCLUSIVE};

verus! {

} // verus!
