//! The cpuset hierarchy under a mount point.
use vstd::prelude::*;

use crate::error::{Error, ErrorView};

verus! {

/// Where the cpuset controller is conventionally mounted.
pub const CPUSET_PATH: &'static str = "/sys/fs/cgroup/cpuset";

/// A cpuset hierarchy, known by the path of its mount point.
pub struct CpuSet {
    path: String,
}

impl View for CpuSet {
    type V = Seq<char>;

    /// The path of the mount point.
    closed spec fn view(&self) -> Seq<char> {
        self.path@
    }
}

impl CpuSet {
    /// Opens the hierarchy mounted at `path`.
    pub fn new(path: &str) -> (r: Self)
        ensures
            r@ == path@,
    {
        CpuSet { path: path.to_owned() }
    }

    /// The path of the mount point.
    pub fn path(&self) -> (r: &str)
        ensures
            r@ == self@,
    {
        self.path.as_str()
    }

    /// The outcome of creating a cpuset's directory without an error from
    /// the filesystem: success exactly when the directory exists afterwards.
    pub fn creation_result(exists_after: bool) -> (r: Result<(), Error>)
        ensures
            r is Ok <==> exists_after,
            r is Err ==> r->Err_0@ == ErrorView::CreationFailed,
    {
        if exists_after {
            Ok(())
        } else {
            Err(Error::CreationFailed)
        }
    }
}

} // verus!
