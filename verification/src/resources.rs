//! The device-wide resource record and the identifier arrays inside it.

use vstd::prelude::*;
use std::ops::Deref;
use crate::array::{ArrayModel, RawArray};
use crate::error::Error;
use crate::native::{NativeCall, ReleaseProtocol};

verus! {

/// The framebuffer identifiers of a resource record.  Released through the
/// general-purpose allocator.
#[derive(Debug)]
pub struct DRMModeResFramebuffers<'a> {
    fbs: RawArray<'a, u32>,
}

impl<'a> View for DRMModeResFramebuffers<'a> {
    type V = ArrayModel<u32>;

    closed spec fn view(&self) -> ArrayModel<u32> {
        self.fbs@
    }
}

impl<'a> DRMModeResFramebuffers<'a> {
    /// Takes over an array that the native layer handed out.
    pub fn new(fbs: RawArray<'a, u32>) -> (v: Self)
        ensures
            v@ == fbs@,
    {
        DRMModeResFramebuffers { fbs }
    }

    /// Gives the array up and names the one call that frees it.
    #[must_use]
    pub fn release(self) -> (call: NativeCall)
        ensures
            call == (NativeCall::Free { addr: self@.addr }),
    {
        NativeCall::Free { addr: self.fbs.addr }
    }
}

impl<'a> Deref for DRMModeResFramebuffers<'a> {
    type Target = [u32];

    fn deref(&self) -> (s: &[u32])
        ensures
            s@ == self@.elems,
    {
        self.fbs.elems
    }
}

/// The CRTC identifiers of a resource record.  Released through the
/// general-purpose allocator.
#[derive(Debug)]
pub struct DRMModeResCrtcs<'a> {
    crtcs: RawArray<'a, u32>,
}

impl<'a> View for DRMModeResCrtcs<'a> {
    type V = ArrayModel<u32>;

    closed spec fn view(&self) -> ArrayModel<u32> {
        self.crtcs@
    }
}

impl<'a> DRMModeResCrtcs<'a> {
    /// Takes over an array that the native layer handed out.
    pub fn new(crtcs: RawArray<'a, u32>) -> (v: Self)
        ensures
            v@ == crtcs@,
    {
        DRMModeResCrtcs { crtcs }
    }

    /// Gives the array up and names the one call that frees it.
    #[must_use]
    pub fn release(self) -> (call: NativeCall)
        ensures
            call == (NativeCall::Free { addr: self@.addr }),
    {
        NativeCall::Free { addr: self.crtcs.addr }
    }
}

impl<'a> Deref for DRMModeResCrtcs<'a> {
    type Target = [u32];

    fn deref(&self) -> (s: &[u32])
        ensures
            s@ == self@.elems,
    {
        self.crtcs.elems
    }
}

/// The connector identifiers of a resource record.  Released through the
/// general-purpose allocator.
#[derive(Debug)]
pub struct DRMModeResConnectors<'a> {
    conns: RawArray<'a, u32>,
}

impl<'a> View for DRMModeResConnectors<'a> {
    type V = ArrayModel<u32>;

    closed spec fn view(&self) -> ArrayModel<u32> {
        self.conns@
    }
}

impl<'a> DRMModeResConnectors<'a> {
    /// Takes over an array that the native layer handed out.
    pub fn new(conns: RawArray<'a, u32>) -> (v: Self)
        ensures
            v@ == conns@,
    {
        DRMModeResConnectors { conns }
    }

    /// Gives the array up and names the one call that frees it.
    #[must_use]
    pub fn release(self) -> (call: NativeCall)
        ensures
            call == (NativeCall::Free { addr: self@.addr }),
    {
        NativeCall::Free { addr: self.conns.addr }
    }
}

impl<'a> Deref for DRMModeResConnectors<'a> {
    type Target = [u32];

    fn deref(&self) -> (s: &[u32])
        ensures
            s@ == self@.elems,
    {
        self.conns.elems
    }
}

/// The encoder identifiers of a resource record.  Released through the
/// general-purpose allocator.
#[derive(Debug)]
pub struct DRMModeResEncoders<'a> {
    encs: RawArray<'a, u32>,
}

impl<'a> View for DRMModeResEncoders<'a> {
    type V = ArrayModel<u32>;

    closed spec fn view(&self) -> ArrayModel<u32> {
        self.encs@
    }
}

impl<'a> DRMModeResEncoders<'a> {
    /// Takes over an array that the native layer handed out.
    pub fn new(encs: RawArray<'a, u32>) -> (v: Self)
        ensures
            v@ == encs@,
    {
        DRMModeResEncoders { encs }
    }

    /// Gives the array up and names the one call that frees it.
    #[must_use]
    pub fn release(self) -> (call: NativeCall)
        ensures
            call == (NativeCall::Free { addr: self@.addr }),
    {
        NativeCall::Free { addr: self.encs.addr }
    }
}

impl<'a> Deref for DRMModeResEncoders<'a> {
    type Target = [u32];

    fn deref(&self) -> (s: &[u32])
        ensures
            s@ == self@.elems,
    {
        self.encs.elems
    }
}

/// What a resource record holds.
pub struct ResourcesModel {
    pub handle: usize,
    pub framebuffers: ArrayModel<u32>,
    pub crtcs: ArrayModel<u32>,
    pub connectors: ArrayModel<u32>,
    pub encoders: ArrayModel<u32>,
    pub min_width: u32,
    pub max_width: u32,
    pub min_height: u32,
    pub max_height: u32,
}

/// A resource record as one `GetResources` call hands it over: the address of
/// the record, the four identifier arrays found in it and its scalars.
#[derive(Debug)]
pub struct RawResources<'a> {
    pub handle: usize,
    pub fbs: RawArray<'a, u32>,
    pub crtcs: RawArray<'a, u32>,
    pub connectors: RawArray<'a, u32>,
    pub encoders: RawArray<'a, u32>,
    pub min_width: u32,
    pub max_width: u32,
    pub min_height: u32,
    pub max_height: u32,
}

impl<'a> View for RawResources<'a> {
    type V = ResourcesModel;

    open spec fn view(&self) -> ResourcesModel {
        ResourcesModel {
            handle: self.handle,
            framebuffers: self.fbs@,
            crtcs: self.crtcs@,
            connectors: self.connectors@,
            encoders: self.encoders@,
            min_width: self.min_width,
            max_width: self.max_width,
            min_height: self.min_height,
            max_height: self.max_height,
        }
    }
}

/// The resources of a device: the native record and the four identifier
/// arrays in it, all owned.
#[derive(Debug)]
pub struct DRMModeRes<'a> {
    raw: usize,
    framebuffers: DRMModeResFramebuffers<'a>,
    crtcs: DRMModeResCrtcs<'a>,
    connectors: DRMModeResConnectors<'a>,
    encoders: DRMModeResEncoders<'a>,
    min_width: u32,
    max_width: u32,
    min_height: u32,
    max_height: u32,
}

impl<'a> View for DRMModeRes<'a> {
    type V = ResourcesModel;

    closed spec fn view(&self) -> ResourcesModel {
        ResourcesModel {
            handle: self.raw,
            framebuffers: self.framebuffers@,
            crtcs: self.crtcs@,
            connectors: self.connectors@,
            encoders: self.encoders@,
            min_width: self.min_width,
            max_width: self.max_width,
            min_height: self.min_height,
            max_height: self.max_height,
        }
    }
}

/// The calls that give a resource record back, in order: the record itself
/// through the native layer's routine, then each identifier array through the
/// general-purpose allocator.
pub open spec fn resources_release_plan(res: ResourcesModel) -> Seq<NativeCall> {
    seq![
        NativeCall::FreeResources { handle: res.handle },
        NativeCall::Free { addr: res.framebuffers.addr },
        NativeCall::Free { addr: res.crtcs.addr },
        NativeCall::Free { addr: res.connectors.addr },
        NativeCall::Free { addr: res.encoders.addr },
    ]
}

/// Giving a resource record back frees each of its five allocations exactly
/// once and by the convention of its origin: the record by the native
/// layer's routine, every identifier array by the general-purpose allocator.
pub proof fn lemma_resources_release_matches_origin(res: ResourcesModel)
    ensures
        resources_release_plan(res).len() == 5,
        resources_release_plan(res)[0].released() == Some(res.handle),
        resources_release_plan(res)[0].protocol() == Some(ReleaseProtocol::Library),
        resources_release_plan(res)[1].released() == Some(res.framebuffers.addr),
        resources_release_plan(res)[2].released() == Some(res.crtcs.addr),
        resources_release_plan(res)[3].released() == Some(res.connectors.addr),
        resources_release_plan(res)[4].released() == Some(res.encoders.addr),
        forall|i: int|
            1 <= i < 5 ==> (#[trigger] resources_release_plan(res)[i]).protocol() == Some(
                ReleaseProtocol::Generic,
            ),
{
}

impl<'a> DRMModeRes<'a> {
    /// Takes the answer of a `GetResources` call.  An empty answer is the
    /// failure of the query; any other becomes the owner of the record and of
    /// its arrays.
    pub fn new(reply: Option<RawResources<'a>>) -> (r: Result<Self, Error>)
        ensures
            match reply {
                Some(raw) => r is Ok && r.unwrap()@ == raw@,
                None => r is Err && r.unwrap_err() == Error::resources_unavailable(),
            },
    {
        match reply {
            Some(raw) => Ok(
                DRMModeRes {
                    raw: raw.handle,
                    framebuffers: DRMModeResFramebuffers::new(raw.fbs),
                    crtcs: DRMModeResCrtcs::new(raw.crtcs),
                    connectors: DRMModeResConnectors::new(raw.connectors),
                    encoders: DRMModeResEncoders::new(raw.encoders),
                    min_width: raw.min_width,
                    max_width: raw.max_width,
                    min_height: raw.min_height,
                    max_height: raw.max_height,
                },
            ),
            None => Err(Error::resources_unavailable()),
        }
    }

    /// Gives the record and its arrays up and names the calls that free
    /// them, each exactly once and by the convention of its origin.
    #[must_use]
    pub fn release(self) -> (calls: Vec<NativeCall>)
        ensures
            calls@ == resources_release_plan(self@),
    {
        let mut calls: Vec<NativeCall> = Vec::new();
        calls.push(NativeCall::FreeResources { handle: self.raw });
        calls.push(self.framebuffers.release());
        calls.push(self.crtcs.release());
        calls.push(self.connectors.release());
        calls.push(self.encoders.release());
        calls
    }

    pub fn framebuffers(&self) -> (v: &DRMModeResFramebuffers<'a>)
        ensures
            v@ == self@.framebuffers,
    {
        &self.framebuffers
    }

    pub fn crtcs(&self) -> (v: &DRMModeResCrtcs<'a>)
        ensures
            v@ == self@.crtcs,
    {
        &self.crtcs
    }

    pub fn connectors(&self) -> (v: &DRMModeResConnectors<'a>)
        ensures
            v@ == self@.connectors,
    {
        &self.connectors
    }

    pub fn encoders(&self) -> (v: &DRMModeResEncoders<'a>)
        ensures
            v@ == self@.encoders,
    {
        &self.encoders
    }

    pub fn min_width(&self) -> (w: u32)
        ensures
            w == self@.min_width,
    {
        self.min_width
    }

    pub fn max_width(&self) -> (w: u32)
        ensures
            w == self@.max_width,
    {
        self.max_width
    }

    pub fn min_height(&self) -> (h: u32)
        ensures
            h == self@.min_height,
    {
        self.min_height
    }

    pub fn max_height(&self) -> (h: u32)
        ensures
            h == self@.max_height,
    {
        self.max_height
    }
}

} // verus!
