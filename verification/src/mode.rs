//! Display modes: the native record and its owned, decoded form.

use vstd::prelude::*;
use crate::error::Error;

verus! {

/// Length of the name buffer in a native mode record.
pub const DRM_DISPLAY_MODE_LEN: usize = 32;

/// One mode record as it lies in native memory, field for field.
#[derive(Clone, Copy, Debug)]
pub struct RawModeInfo {
    pub clock: u32,
    pub hdisplay: u16,
    pub hsync_start: u16,
    pub hsync_end: u16,
    pub htotal: u16,
    pub hskew: u16,
    pub vdisplay: u16,
    pub vsync_start: u16,
    pub vsync_end: u16,
    pub vtotal: u16,
    pub vscan: u16,
    pub vrefresh: u32,
    pub flags: u32,
    pub type_: u32,
    pub name: [u8; DRM_DISPLAY_MODE_LEN],
}

/// The timing of one axis: visible extent, sync pulse and total.
#[derive(Clone, Copy, Debug, PartialEq, Eq)]
pub struct DRMDimensionInfo {
    pub display: u16,
    pub sync_start: u16,
    pub sync_end: u16,
    pub total: u16,
}

/// What a decoded mode holds.
pub struct ModeModel {
    pub clock: u32,
    pub hinfo: DRMDimensionInfo,
    pub vinfo: DRMDimensionInfo,
    pub hskew: u16,
    pub vscan: u16,
    pub vrefresh: u32,
    pub flags: u32,
    pub type_: u32,
    pub name: Seq<u8>,
}

/// One display mode, decoded.  It owns its name and refers to no native
/// memory.
#[derive(Debug, PartialEq, Eq)]
pub struct DRMModeModeInfo {
    clock: u32,
    hinfo: DRMDimensionInfo,
    vinfo: DRMDimensionInfo,
    hskew: u16,
    vscan: u16,
    vrefresh: u32,
    flags: u32,
    type_: u32,
    name: Vec<u8>,
}

/// Number of bytes of `buf` that come before its first zero byte; the whole
/// length where it holds none.
pub open spec fn name_len(buf: Seq<u8>) -> nat
    decreases buf.len(),
{
    if buf.len() == 0 || buf[0] == 0 {
        0
    } else {
        1 + name_len(buf.drop_first())
    }
}

/// The name held in a name buffer: its bytes up to the first zero byte or to
/// the end of the buffer.
pub open spec fn decoded_name(buf: Seq<u8>) -> Seq<u8> {
    buf.take(name_len(buf) as int)
}

/// The mode that a native record describes.
pub open spec fn decoded_mode(raw: RawModeInfo) -> ModeModel {
    ModeModel {
        clock: raw.clock,
        hinfo: DRMDimensionInfo {
            display: raw.hdisplay,
            sync_start: raw.hsync_start,
            sync_end: raw.hsync_end,
            total: raw.htotal,
        },
        vinfo: DRMDimensionInfo {
            display: raw.vdisplay,
            sync_start: raw.vsync_start,
            sync_end: raw.vsync_end,
            total: raw.vtotal,
        },
        hskew: raw.hskew,
        vscan: raw.vscan,
        vrefresh: raw.vrefresh,
        flags: raw.flags,
        type_: raw.type_,
        name: decoded_name(raw.name@),
    }
}

/// `name_len` is the one position that no zero byte precedes and at which the
/// buffer either ends or holds a zero byte.
pub proof fn lemma_name_len_is_first_zero(buf: Seq<u8>, n: int)
    requires
        0 <= n <= buf.len(),
        forall|j: int| 0 <= j < n ==> buf[j] != 0,
        n < buf.len() ==> buf[n] == 0,
    ensures
        name_len(buf) == n,
    decreases buf.len(),
{
    if n > 0 {
        lemma_name_len_is_first_zero(buf.drop_first(), n - 1);
    }
}

/// The decoded name is a prefix of the buffer, holds no zero byte, and is
/// followed by a zero byte wherever the buffer goes on.
pub proof fn lemma_decoded_name_stops_at_zero(buf: Seq<u8>)
    ensures
        decoded_name(buf).len() == name_len(buf) <= buf.len(),
        decoded_name(buf) == buf.take(decoded_name(buf).len() as int),
        forall|j: int| 0 <= j < decoded_name(buf).len() ==> #[trigger] decoded_name(buf)[j] != 0,
        name_len(buf) < buf.len() ==> buf[name_len(buf) as int] == 0,
    decreases buf.len(),
{
    if buf.len() > 0 && buf[0] != 0 {
        let rest = buf.drop_first();
        lemma_decoded_name_stops_at_zero(rest);
        assert forall|j: int| 0 <= j < decoded_name(buf).len() implies #[trigger] decoded_name(
            buf,
        )[j] != 0 by {
            if j > 0 {
                assert(decoded_name(rest)[j - 1] == rest[j - 1]);
            }
        }
    }
}

/// Bytes that follow the first zero byte have no part in the name: two
/// buffers that agree up to and including the first zero byte of one hold
/// the same name.
pub proof fn lemma_decoded_name_ignores_tail(a: Seq<u8>, b: Seq<u8>)
    requires
        name_len(a) < a.len(),
        name_len(a) < b.len(),
        forall|j: int| 0 <= j <= name_len(a) ==> a[j] == b[j],
    ensures
        decoded_name(b) == decoded_name(a),
{
    lemma_decoded_name_stops_at_zero(a);
    let n = name_len(a) as int;
    assert forall|j: int| 0 <= j < n implies b[j] != 0 by {
        assert(decoded_name(a)[j] == a[j]);
    }
    lemma_name_len_is_first_zero(b, n);
    assert(decoded_name(b) =~= decoded_name(a));
}

impl View for DRMModeModeInfo {
    type V = ModeModel;

    closed spec fn view(&self) -> ModeModel {
        ModeModel {
            clock: self.clock,
            hinfo: self.hinfo,
            vinfo: self.vinfo,
            hskew: self.hskew,
            vscan: self.vscan,
            vrefresh: self.vrefresh,
            flags: self.flags,
            type_: self.type_,
            name: self.name@,
        }
    }
}

impl DRMModeModeInfo {
    /// Decodes one native record.  The record is only read; every scalar is
    /// copied and the name is copied out up to its first zero byte, so the
    /// result stays valid whatever becomes of the record.  Decoding cannot
    /// fail.
    pub fn new(raw: &RawModeInfo) -> (r: Result<Self, Error>)
        ensures
            r is Ok,
            r.unwrap()@ == decoded_mode(*raw),
    {
        let mut name: Vec<u8> = Vec::new();
        let mut i: usize = 0;
        while i < DRM_DISPLAY_MODE_LEN && raw.name[i] != 0
            invariant
                i <= DRM_DISPLAY_MODE_LEN,
                raw.name@.len() == DRM_DISPLAY_MODE_LEN,
                name@ == raw.name@.take(i as int),
                forall|j: int| 0 <= j < i ==> raw.name@[j] != 0,
            decreases DRM_DISPLAY_MODE_LEN - i,
        {
            name.push(raw.name[i]);
            i += 1;
        }
        proof {
            lemma_name_len_is_first_zero(raw.name@, i as int);
        }
        Ok(
            DRMModeModeInfo {
                clock: raw.clock,
                hinfo: DRMDimensionInfo {
                    display: raw.hdisplay,
                    sync_start: raw.hsync_start,
                    sync_end: raw.hsync_end,
                    total: raw.htotal,
                },
                vinfo: DRMDimensionInfo {
                    display: raw.vdisplay,
                    sync_start: raw.vsync_start,
                    sync_end: raw.vsync_end,
                    total: raw.vtotal,
                },
                hskew: raw.hskew,
                vscan: raw.vscan,
                vrefresh: raw.vrefresh,
                flags: raw.flags,
                type_: raw.type_,
                name,
            },
        )
    }

    pub fn clock(&self) -> (clock: u32)
        ensures
            clock == self@.clock,
    {
        self.clock
    }

    pub fn hinfo(&self) -> (hinfo: DRMDimensionInfo)
        ensures
            hinfo == self@.hinfo,
    {
        self.hinfo
    }

    pub fn vinfo(&self) -> (vinfo: DRMDimensionInfo)
        ensures
            vinfo == self@.vinfo,
    {
        self.vinfo
    }

    pub fn hskew(&self) -> (hskew: u16)
        ensures
            hskew == self@.hskew,
    {
        self.hskew
    }

    pub fn vscan(&self) -> (vscan: u16)
        ensures
            vscan == self@.vscan,
    {
        self.vscan
    }

    pub fn vrefresh(&self) -> (vrefresh: u32)
        ensures
            vrefresh == self@.vrefresh,
    {
        self.vrefresh
    }

    pub fn flags(&self) -> (flags: u32)
        ensures
            flags == self@.flags,
    {
        self.flags
    }

    pub fn type_(&self) -> (type_: u32)
        ensures
            type_ == self@.type_,
    {
        self.type_
    }

    /// The bytes of the mode's name, without a terminator.
    pub fn name(&self) -> (name: &[u8])
        ensures
            name@ == self@.name,
    {
        self.name.as_slice()
    }
}

} // verus!
