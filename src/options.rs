//! Arguments of the controller operations.
use vstd::prelude::*;

verus! {

/// Arguments for opening an existing cpuset hierarchy.
#[derive(Clone, PartialEq, Debug)]
pub struct OpenOptions {}

/// Arguments for listing cpusets.
#[derive(Clone, PartialEq, Debug)]
pub struct ListOptions {}

/// Arguments for creating a cpuset.
#[derive(Clone, PartialEq, Debug)]
pub struct CreateOptions {
    /// Name of the new cpuset.
    pub name: String,
}

/// Arguments for removing a cpuset.
#[derive(Clone, PartialEq, Debug)]
pub struct RemoveOptions {
    /// Name of the cpuset to remove.
    pub name: String,
}

} // verus!
