//! Failure reporting. A failure is described by a `Fault` value; the program
//! around the library turns it into a process abort with its message.
use vstd::prelude::*;

verus! {

/// Why the process is to be aborted.
#[derive(Clone, Copy, Debug, PartialEq, Eq, Structural)]
pub enum Fault {
    /// An abort with no further message.
    Aborted,
    /// An index at or past the end of a span of `len` elements.
    BoundsCheck { index: usize, len: usize },
    /// A failed runtime check.
    Failed,
    /// The allocator could not provide storage.
    OutOfMemory,
}

impl Fault {
    /// The diagnostic printed when aborting on this fault.
    pub open spec fn spec_message(&self) -> Seq<char> {
        match self {
            Fault::Aborted => "aborted. no message."@,
            Fault::BoundsCheck { .. } => "fail_bounds_check"@,
            Fault::Failed => "fail_"@,
            Fault::OutOfMemory => "out of memory"@,
        }
    }

    /// The diagnostic printed when aborting on this fault.
    pub fn message(&self) -> (r: &'static str)
        ensures
            r@ == self.spec_message(),
    {
        match self {
            Fault::Aborted => "aborted. no message.",
            Fault::BoundsCheck { .. } => "fail_bounds_check",
            Fault::Failed => "fail_",
            Fault::OutOfMemory => "out of memory",
        }
    }
}

/// The fault of an abort with no message.
pub fn abort() -> (r: Fault)
    ensures
        r == Fault::Aborted,
{
    Fault::Aborted
}

/// The fault of an out-of-bounds access at `index` into `len` elements.
pub fn fail_bounds_check(_file: &str, _line: usize, index: usize, len: usize) -> (r: Fault)
    requires
        index >= len,
    ensures
        r == (Fault::BoundsCheck { index, len }),
{
    Fault::BoundsCheck { index, len }
}

/// The fault of a failed runtime check.
pub fn fail_(_expr: &str, _file: &str, _line: usize) -> (r: Fault)
    ensures
        r == Fault::Failed,
{
    Fault::Failed
}

/// The fault of an allocation that could not be served.
pub fn out_of_memory() -> (r: Fault)
    ensures
        r == Fault::OutOfMemory,
{
    Fault::OutOfMemory
}

/// A check that the verifier discharges at every call site: `b` must hold,
/// so nothing is left to test at run time.
pub fn assert_holds(b: bool)
    requires
        b,
{
}

} // verus!
