//! The rendezvous address and the rule for cleaning it up.

use vstd::prelude::*;

verus! {

/// The one address that every instance on this host uses.
pub const SOCKET_PATH: &'static str = "/tmp/timba.sock";

/// What an attempt to remove the endpoint's file reported.
#[derive(Clone, Copy, Debug, PartialEq, Eq, Structural)]
pub enum Removal {
    /// The file was there and is gone now.
    Removed,
    /// There was no such file.
    Absent,
    /// The file is there and could not be removed.
    Failed,
}

/// The rendezvous address.
pub fn resolve() -> (endpoint: &'static str)
    ensures
        endpoint@ == SOCKET_PATH@,
{
    SOCKET_PATH
}

/// Whether the endpoint is free after a removal attempt. Removing what is not
/// there is no error, so cleaning up twice is as good as once.
pub open spec fn is_clean(removal: Removal) -> bool {
    removal != Removal::Failed
}

/// Judges an attempt to remove the endpoint's file.
pub fn cleanup(removal: Removal) -> (clean: bool)
    ensures
        clean == is_clean(removal),
{
    match removal {
        Removal::Removed => true,
        Removal::Absent => true,
        Removal::Failed => false,
    }
}

} // verus!
