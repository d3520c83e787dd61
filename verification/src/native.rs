//! The vocabulary of the native call boundary.
//!
//! The native layer offers five query and control entry points and four
//! release entry points.  The layer never calls them; it names them, as
//! values of [`NativeCall`], and the driver performs what is named.

use vstd::prelude::*;
use libc::c_int;

verus! {

/// One call into the native layer, with its arguments.
#[derive(Clone, Copy, Debug, PartialEq, Eq)]
pub enum NativeCall {
    /// Ask whether the mode-setting interface is present at all.
    Available,
    /// Ask for exclusive control of the device behind `fd`.
    SetMaster { fd: c_int },
    /// Give exclusive control of the device behind `fd` back.
    DropMaster { fd: c_int },
    /// Fetch the resource record of the device behind `fd`.
    GetResources { fd: c_int },
    /// Fetch the record of one connector of the device behind `fd`.
    GetConnector { fd: c_int, connector_id: u32 },
    /// Release a resource record through the native layer's own routine.
    FreeResources { handle: usize },
    /// Release a connector record through the native layer's own routine.
    FreeConnector { handle: usize },
    /// Release a connector's array of mode records through the native layer's
    /// own routine.
    FreeModeInfo { addr: usize },
    /// Release an array through the general-purpose allocator.
    Free { addr: usize },
}

/// The two conventions by which native memory is given back.
#[derive(Clone, Copy, Debug, PartialEq, Eq)]
pub enum ReleaseProtocol {
    /// A routine of the native layer that knows the structure it frees.
    Library,
    /// The general-purpose allocator's free.
    Generic,
}

impl NativeCall {
    /// The convention a release call follows; `None` for a call that releases
    /// nothing.
    pub open spec fn protocol(self) -> Option<ReleaseProtocol> {
        match self {
            NativeCall::FreeResources { .. } => Some(ReleaseProtocol::Library),
            NativeCall::FreeConnector { .. } => Some(ReleaseProtocol::Library),
            NativeCall::FreeModeInfo { .. } => Some(ReleaseProtocol::Library),
            NativeCall::Free { .. } => Some(ReleaseProtocol::Generic),
            _ => None,
        }
    }

    /// The address a release call gives back; `None` for a call that releases
    /// nothing.
    pub open spec fn released(self) -> Option<usize> {
        match self {
            NativeCall::FreeResources { handle } => Some(handle),
            NativeCall::FreeConnector { handle } => Some(handle),
            NativeCall::FreeModeInfo { addr } => Some(addr),
            NativeCall::Free { addr } => Some(addr),
            _ => None,
        }
    }

    pub fn release_protocol(&self) -> (p: Option<ReleaseProtocol>)
        ensures
            p == self.protocol(),
    {
        match self {
            NativeCall::FreeResources { .. } => Some(ReleaseProtocol::Library),
            NativeCall::FreeConnector { .. } => Some(ReleaseProtocol::Library),
            NativeCall::FreeModeInfo { .. } => Some(ReleaseProtocol::Library),
            NativeCall::Free { .. } => Some(ReleaseProtocol::Generic),
            _ => None,
        }
    }

    pub fn released_address(&self) -> (a: Option<usize>)
        ensures
            a == self.released(),
    {
        match self {
            NativeCall::FreeResources { handle } => Some(*handle),
            NativeCall::FreeConnector { handle } => Some(*handle),
            NativeCall::FreeModeInfo { addr } => Some(*addr),
            NativeCall::Free { addr } => Some(*addr),
            _ => None,
        }
    }
}

/// Reads the answer of [`NativeCall::Available`]: the interface is present
/// unless the native layer answered zero.
pub fn is_drm_available(status: c_int) -> (available: bool)
    ensures
        available == (status != 0),
{
    status != 0
}

/// The request for exclusive control of the device behind `fd`.
pub fn set_master(fd: c_int) -> (call: NativeCall)
    ensures
        call == (NativeCall::SetMaster { fd }),
{
    NativeCall::SetMaster { fd }
}

/// The request that gives exclusive control of the device behind `fd` back.
pub fn drop_master(fd: c_int) -> (call: NativeCall)
    ensures
        call == (NativeCall::DropMaster { fd }),
{
    NativeCall::DropMaster { fd }
}

} // verus!
