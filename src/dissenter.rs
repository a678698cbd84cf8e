//! The dissent handed back to Disk Arbitration to refuse a mount.

use vstd::prelude::*;

use crate::mach::DA_RETURN_EXCLUSIVE_ACCESS;

verus! {

/// A refusal of one mount attempt: the status the operating system reports and an
/// operator-visible reason. The native dissenter object is made from these fields
/// when the decision is handed back.
#[derive(Clone, Debug)]
pub struct Dissenter {
    pub status: u32,
    pub reason: String,
}

impl Dissenter {
    /// A dissent with the exclusive-access status and the given reason.
    pub fn new(reason: &str) -> (r: Dissenter)
        ensures
            r.status == DA_RETURN_EXCLUSIVE_ACCESS,
            r.reason@ == reason@,
    {
        Dissenter { status: DA_RETURN_EXCLUSIVE_ACCESS, reason: String::from_str(reason) }
    }
}

} // verus!
