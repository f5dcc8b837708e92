//! The state of one cpuset, decoded from its control files.
use vstd::prelude::*;

use crate::error::{Error, ErrorView};
use crate::range::{
    is_usize_text, parse_spec, parse_usize, result_view, trim_line_endings, trim_spec,
    usize_text_value, CpuRange, CpuRangeView,
};

verus! {

/// Name of the control file that lists a cpuset's CPUs.
pub const CPUSET_CPUS: &'static str = "cpuset.cpus";

/// Name of the control file that holds a cpuset's exclusivity flag.
pub const CPUSET_CPU_EXCLUSIVE: &'static str = "cpuset.cpu_exclusive";

/// One cpuset: its directory's name and what its control files hold.
#[derive(Clone, PartialEq, Debug)]
pub struct SetState {
    pub name: String,
    pub cpus: CpuRange,
    pub cpu_exclusive: bool,
}

/// The mathematical value of a [`SetState`].
pub struct SetStateView {
    pub name: Seq<char>,
    pub cpus: CpuRangeView,
    pub cpu_exclusive: bool,
}

impl View for SetState {
    type V = SetStateView;

    open spec fn view(&self) -> SetStateView {
        SetStateView { name: self.name@, cpus: self.cpus@, cpu_exclusive: self.cpu_exclusive }
    }
}

/// What decoding the text `s` of a `cpuset.cpu_exclusive` file gives: after
/// trailing line endings, a `usize` that must be 0 (false) or 1 (true).
pub open spec fn flag_spec(s: Seq<char>) -> Result<bool, ErrorView> {
    let t = trim_spec(s);
    if !is_usize_text(t) {
        Err(ErrorView::InvalidInt)
    } else if usize_text_value(t) == 0 {
        Ok(false)
    } else if usize_text_value(t) == 1 {
        Ok(true)
    } else {
        Err(ErrorView::UnexpectedFlag(usize_text_value(t)))
    }
}

/// The outcome of decoding a flag, with the outside error payloads left out.
pub open spec fn flag_result_view(r: Result<bool, Error>) -> Result<bool, ErrorView> {
    match r {
        Ok(b) => Ok(b),
        Err(e) => Err(e@),
    }
}

/// What decoding a cpuset named `name` from the texts of its two control
/// files gives: the CPU list's error first, then the flag's.
pub open spec fn load_spec(name: Seq<char>, cpus: Seq<char>, exclusive: Seq<char>) -> Result<
    SetStateView,
    ErrorView,
> {
    match parse_spec(cpus) {
        Err(e) => Err(e),
        Ok(c) => match flag_spec(exclusive) {
            Err(e) => Err(e),
            Ok(b) => Ok(SetStateView { name, cpus: c, cpu_exclusive: b }),
        },
    }
}

/// The outcome of decoding a set, with the outside error payloads left out.
pub open spec fn set_result_view(r: Result<SetState, Error>) -> Result<SetStateView, ErrorView> {
    match r {
        Ok(s) => Ok(s@),
        Err(e) => Err(e@),
    }
}

/// Decodes the text of a `cpuset.cpu_exclusive` file.
pub fn parse_flag(s: &str) -> (r: Result<bool, Error>)
    ensures
        flag_result_view(r) == flag_spec(s@),
{
    let t = trim_line_endings(s);
    match parse_usize(t) {
        Ok(0) => Ok(false),
        Ok(1) => Ok(true),
        Ok(n) => Err(Error::UnexpectedFlag(n)),
        Err(e) => Err(Error::from(e)),
    }
}

impl SetState {
    /// Builds the set named `name` from the texts of its `cpuset.cpus` and
    /// `cpuset.cpu_exclusive` files.
    pub fn from_contents(name: &str, cpus: &str, cpu_exclusive: &str) -> (r: Result<SetState, Error>)
        ensures
            set_result_view(r) == load_spec(name@, cpus@, cpu_exclusive@),
    {
        let c = CpuRange::from_str(cpus);
        let cpus = match c {
            Ok(c) => c,
            Err(e) => {
                return Err(e);
            },
        };
        match parse_flag(cpu_exclusive) {
            Ok(b) => Ok(SetState { name: name.to_owned(), cpus, cpu_exclusive: b }),
            Err(e) => Err(e),
        }
    }
}

} // verus!
