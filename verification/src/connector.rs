//! One display connector: its record, its modes and the arrays inside it.

use vstd::prelude::*;
use std::ops::Deref;
use crate::array::{ArrayModel, RawArray};
use crate::error::Error;
use crate::mode::{decoded_mode, DRMModeModeInfo, ModeModel, RawModeInfo};
use crate::native::{NativeCall, ReleaseProtocol};

verus! {

/// The kind of plug or link a connector is.
#[derive(Clone, Copy, Debug, PartialEq, Eq)]
pub enum DRMConnectorType {
    Unknown,
    VGA,
    DVII,
    DVID,
    DVIA,
    Composite,
    SVIDEO,
    LVDS,
    Component,
    NinePinDIN,
    DisplayPort,
    HDMIA,
    HDMIB,
    TV,
    EDP,
    VIRTUAL,
    DSI,
    DPI,
}

impl DRMConnectorType {
    /// The number by which the native layer names this kind.
    pub open spec fn code(self) -> u32 {
        match self {
            DRMConnectorType::Unknown => 0,
            DRMConnectorType::VGA => 1,
            DRMConnectorType::DVII => 2,
            DRMConnectorType::DVID => 3,
            DRMConnectorType::DVIA => 4,
            DRMConnectorType::Composite => 5,
            DRMConnectorType::SVIDEO => 6,
            DRMConnectorType::LVDS => 7,
            DRMConnectorType::Component => 8,
            DRMConnectorType::NinePinDIN => 9,
            DRMConnectorType::DisplayPort => 10,
            DRMConnectorType::HDMIA => 11,
            DRMConnectorType::HDMIB => 12,
            DRMConnectorType::TV => 13,
            DRMConnectorType::EDP => 14,
            DRMConnectorType::VIRTUAL => 15,
            DRMConnectorType::DSI => 16,
            DRMConnectorType::DPI => 17,
        }
    }

    /// The kind that the native layer names by `code`; `Unknown` for a number
    /// that names none.
    pub open spec fn of_code(code: u32) -> Self {
        if code == 1 {
            DRMConnectorType::VGA
        } else if code == 2 {
            DRMConnectorType::DVII
        } else if code == 3 {
            DRMConnectorType::DVID
        } else if code == 4 {
            DRMConnectorType::DVIA
        } else if code == 5 {
            DRMConnectorType::Composite
        } else if code == 6 {
            DRMConnectorType::SVIDEO
        } else if code == 7 {
            DRMConnectorType::LVDS
        } else if code == 8 {
            DRMConnectorType::Component
        } else if code == 9 {
            DRMConnectorType::NinePinDIN
        } else if code == 10 {
            DRMConnectorType::DisplayPort
        } else if code == 11 {
            DRMConnectorType::HDMIA
        } else if code == 12 {
            DRMConnectorType::HDMIB
        } else if code == 13 {
            DRMConnectorType::TV
        } else if code == 14 {
            DRMConnectorType::EDP
        } else if code == 15 {
            DRMConnectorType::VIRTUAL
        } else if code == 16 {
            DRMConnectorType::DSI
        } else if code == 17 {
            DRMConnectorType::DPI
        } else {
            DRMConnectorType::Unknown
        }
    }

    /// Decoding undoes encoding, and encoding undoes decoding on every number
    /// that names a kind.
    pub proof fn lemma_code_round_trip(kind: Self, code: u32)
        ensures
            Self::of_code(kind.code()) == kind,
            code <= 17 ==> Self::of_code(code).code() == code,
            code > 17 ==> Self::of_code(code) == DRMConnectorType::Unknown,
    {
    }

    pub fn from_raw(code: u32) -> (kind: Self)
        ensures
            kind == Self::of_code(code),
    {
        match code {
            1 => DRMConnectorType::VGA,
            2 => DRMConnectorType::DVII,
            3 => DRMConnectorType::DVID,
            4 => DRMConnectorType::DVIA,
            5 => DRMConnectorType::Composite,
            6 => DRMConnectorType::SVIDEO,
            7 => DRMConnectorType::LVDS,
            8 => DRMConnectorType::Component,
            9 => DRMConnectorType::NinePinDIN,
            10 => DRMConnectorType::DisplayPort,
            11 => DRMConnectorType::HDMIA,
            12 => DRMConnectorType::HDMIB,
            13 => DRMConnectorType::TV,
            14 => DRMConnectorType::EDP,
            15 => DRMConnectorType::VIRTUAL,
            16 => DRMConnectorType::DSI,
            17 => DRMConnectorType::DPI,
            _ => DRMConnectorType::Unknown,
        }
    }
}

/// Whether something is plugged into a connector.
#[derive(Clone, Copy, Debug, PartialEq, Eq)]
pub enum DRMModeConnection {
    Connected,
    Disconnected,
    UnknownConnection,
}

impl DRMModeConnection {
    /// The number by which the native layer names this state.
    pub open spec fn code(self) -> u32 {
        match self {
            DRMModeConnection::Connected => 1,
            DRMModeConnection::Disconnected => 2,
            DRMModeConnection::UnknownConnection => 3,
        }
    }

    /// The state that the native layer names by `code`; `UnknownConnection`
    /// for a number that names none.
    pub open spec fn of_code(code: u32) -> Self {
        if code == 1 {
            DRMModeConnection::Connected
        } else if code == 2 {
            DRMModeConnection::Disconnected
        } else {
            DRMModeConnection::UnknownConnection
        }
    }

    /// Decoding undoes encoding, and encoding undoes decoding on every number
    /// that names a state.
    pub proof fn lemma_code_round_trip(state: Self, code: u32)
        ensures
            Self::of_code(state.code()) == state,
            1 <= code <= 3 ==> Self::of_code(code).code() == code,
            !(1 <= code <= 3) ==> Self::of_code(code) == DRMModeConnection::UnknownConnection,
    {
    }

    pub fn from_raw(code: u32) -> (state: Self)
        ensures
            state == Self::of_code(code),
    {
        match code {
            1 => DRMModeConnection::Connected,
            2 => DRMModeConnection::Disconnected,
            _ => DRMModeConnection::UnknownConnection,
        }
    }
}

/// How the colour components of a pixel lie on the panel.
#[derive(Clone, Copy, Debug, PartialEq, Eq)]
pub enum DRMModeSubPixel {
    Unknown,
    HorizontalRGB,
    HorizontalBGR,
    VerticalRGB,
    VerticalBGR,
    /// The panel has no sub-pixels.
    NoSubPixel,
}

impl DRMModeSubPixel {
    /// The number by which the native layer names this layout.
    pub open spec fn code(self) -> u32 {
        match self {
            DRMModeSubPixel::Unknown => 1,
            DRMModeSubPixel::HorizontalRGB => 2,
            DRMModeSubPixel::HorizontalBGR => 3,
            DRMModeSubPixel::VerticalRGB => 4,
            DRMModeSubPixel::VerticalBGR => 5,
            DRMModeSubPixel::NoSubPixel => 6,
        }
    }

    /// The layout that the native layer names by `code`; `Unknown` for a
    /// number that names none.
    pub open spec fn of_code(code: u32) -> Self {
        if code == 2 {
            DRMModeSubPixel::HorizontalRGB
        } else if code == 3 {
            DRMModeSubPixel::HorizontalBGR
        } else if code == 4 {
            DRMModeSubPixel::VerticalRGB
        } else if code == 5 {
            DRMModeSubPixel::VerticalBGR
        } else if code == 6 {
            DRMModeSubPixel::NoSubPixel
        } else {
            DRMModeSubPixel::Unknown
        }
    }

    /// Decoding undoes encoding, and encoding undoes decoding on every number
    /// that names a layout.
    pub proof fn lemma_code_round_trip(layout: Self, code: u32)
        ensures
            Self::of_code(layout.code()) == layout,
            1 <= code <= 6 ==> Self::of_code(code).code() == code,
            !(1 <= code <= 6) ==> Self::of_code(code) == DRMModeSubPixel::Unknown,
    {
    }

    pub fn from_raw(code: u32) -> (layout: Self)
        ensures
            layout == Self::of_code(code),
    {
        match code {
            2 => DRMModeSubPixel::HorizontalRGB,
            3 => DRMModeSubPixel::HorizontalBGR,
            4 => DRMModeSubPixel::VerticalRGB,
            5 => DRMModeSubPixel::VerticalBGR,
            6 => DRMModeSubPixel::NoSubPixel,
            _ => DRMModeSubPixel::Unknown,
        }
    }
}

/// The mode records of a connector, as the native layer holds them.  Released
/// through the native layer's own routine for mode arrays.
#[derive(Debug)]
pub struct DRMModeConnectorModes<'a> {
    modes: RawArray<'a, RawModeInfo>,
}

impl<'a> View for DRMModeConnectorModes<'a> {
    type V = ArrayModel<RawModeInfo>;

    closed spec fn view(&self) -> ArrayModel<RawModeInfo> {
        self.modes@
    }
}

impl<'a> DRMModeConnectorModes<'a> {
    /// Takes over an array that the native layer handed out.
    pub fn new(modes: RawArray<'a, RawModeInfo>) -> (v: Self)
        ensures
            v@ == modes@,
    {
        DRMModeConnectorModes { modes }
    }

    /// Gives the array up and names the one call that frees it.
    #[must_use]
    pub fn release(self) -> (call: NativeCall)
        ensures
            call == (NativeCall::FreeModeInfo { addr: self@.addr }),
    {
        NativeCall::FreeModeInfo { addr: self.modes.addr }
    }
}

impl<'a> Deref for DRMModeConnectorModes<'a> {
    type Target = [RawModeInfo];

    fn deref(&self) -> (s: &[RawModeInfo])
        ensures
            s@ == self@.elems,
    {
        self.modes.elems
    }
}

/// The property identifiers of a connector.  Released through the
/// general-purpose allocator.
#[derive(Debug)]
pub struct DRMModeConnectorProps<'a> {
    props: RawArray<'a, u32>,
}

impl<'a> View for DRMModeConnectorProps<'a> {
    type V = ArrayModel<u32>;

    closed spec fn view(&self) -> ArrayModel<u32> {
        self.props@
    }
}

impl<'a> DRMModeConnectorProps<'a> {
    /// Takes over an array that the native layer handed out.
    pub fn new(props: RawArray<'a, u32>) -> (v: Self)
        ensures
            v@ == props@,
    {
        DRMModeConnectorProps { props }
    }

    /// Gives the array up and names the one call that frees it.
    #[must_use]
    pub fn release(self) -> (call: NativeCall)
        ensures
            call == (NativeCall::Free { addr: self@.addr }),
    {
        NativeCall::Free { addr: self.props.addr }
    }
}

impl<'a> Deref for DRMModeConnectorProps<'a> {
    type Target = [u32];

    fn deref(&self) -> (s: &[u32])
        ensures
            s@ == self@.elems,
    {
        self.props.elems
    }
}

/// The property values of a connector, one for each property identifier.
/// Released through the general-purpose allocator.
#[derive(Debug)]
pub struct DRMModeConnectorPropValues<'a> {
    prop_values: RawArray<'a, u64>,
}

impl<'a> View for DRMModeConnectorPropValues<'a> {
    type V = ArrayModel<u64>;

    closed spec fn view(&self) -> ArrayModel<u64> {
        self.prop_values@
    }
}

impl<'a> DRMModeConnectorPropValues<'a> {
    /// Takes over an array that the native layer handed out.
    pub fn new(prop_values: RawArray<'a, u64>) -> (v: Self)
        ensures
            v@ == prop_values@,
    {
        DRMModeConnectorPropValues { prop_values }
    }

    /// Gives the array up and names the one call that frees it.
    #[must_use]
    pub fn release(self) -> (call: NativeCall)
        ensures
            call == (NativeCall::Free { addr: self@.addr }),
    {
        NativeCall::Free { addr: self.prop_values.addr }
    }
}

impl<'a> Deref for DRMModeConnectorPropValues<'a> {
    type Target = [u64];

    fn deref(&self) -> (s: &[u64])
        ensures
            s@ == self@.elems,
    {
        self.prop_values.elems
    }
}

/// The identifiers of the encoders a connector can be driven by.  Released
/// through the general-purpose allocator.
#[derive(Debug)]
pub struct DRMModeConnectorEncoders<'a> {
    encoders: RawArray<'a, u32>,
}

impl<'a> View for DRMModeConnectorEncoders<'a> {
    type V = ArrayModel<u32>;

    closed spec fn view(&self) -> ArrayModel<u32> {
        self.encoders@
    }
}

impl<'a> DRMModeConnectorEncoders<'a> {
    /// Takes over an array that the native layer handed out.
    pub fn new(encoders: RawArray<'a, u32>) -> (v: Self)
        ensures
            v@ == encoders@,
    {
        DRMModeConnectorEncoders { encoders }
    }

    /// Gives the array up and names the one call that frees it.
    #[must_use]
    pub fn release(self) -> (call: NativeCall)
        ensures
            call == (NativeCall::Free { addr: self@.addr }),
    {
        NativeCall::Free { addr: self.encoders.addr }
    }
}

impl<'a> Deref for DRMModeConnectorEncoders<'a> {
    type Target = [u32];

    fn deref(&self) -> (s: &[u32])
        ensures
            s@ == self@.elems,
    {
        self.encoders.elems
    }
}

/// What a connector holds.
pub struct ConnectorModel {
    pub handle: usize,
    pub connector_id: u32,
    pub encoder_id: u32,
    pub connector_type: DRMConnectorType,
    pub connector_type_id: u32,
    pub connection: DRMModeConnection,
    pub mm_width: u32,
    pub mm_height: u32,
    pub subpixel: DRMModeSubPixel,
    pub modes: Seq<ModeModel>,
    pub props: ArrayModel<u32>,
    pub prop_values: ArrayModel<u64>,
    pub encoders: ArrayModel<u32>,
}

/// A connector record as one `GetConnector` call hands it over: the address
/// of the record, its scalars with the three enumerations still as numbers,
/// and the four arrays found in it.  The mode array has a lifetime of its
/// own, `'m`: it is needed only until its records have been decoded.
#[derive(Debug)]
pub struct RawConnector<'a, 'm> {
    pub handle: usize,
    pub connector_id: u32,
    pub encoder_id: u32,
    pub connector_type: u32,
    pub connector_type_id: u32,
    pub connection: u32,
    pub mm_width: u32,
    pub mm_height: u32,
    pub subpixel: u32,
    pub modes: RawArray<'m, RawModeInfo>,
    pub props: RawArray<'a, u32>,
    pub prop_values: RawArray<'a, u64>,
    pub encoders: RawArray<'a, u32>,
}

impl<'a, 'm> View for RawConnector<'a, 'm> {
    type V = ConnectorModel;

    open spec fn view(&self) -> ConnectorModel {
        ConnectorModel {
            handle: self.handle,
            connector_id: self.connector_id,
            encoder_id: self.encoder_id,
            connector_type: DRMConnectorType::of_code(self.connector_type),
            connector_type_id: self.connector_type_id,
            connection: DRMModeConnection::of_code(self.connection),
            mm_width: self.mm_width,
            mm_height: self.mm_height,
            subpixel: DRMModeSubPixel::of_code(self.subpixel),
            modes: self.modes.elems@.map_values(|raw: RawModeInfo| decoded_mode(raw)),
            props: self.props@,
            prop_values: self.prop_values@,
            encoders: self.encoders@,
        }
    }
}

/// One connector: the native record, its modes in decoded form and the three
/// arrays in it, all owned.
#[derive(Debug)]
pub struct DRMModeConnector<'a> {
    raw: usize,
    connector_id: u32,
    encoder_id: u32,
    connector_type: DRMConnectorType,
    connector_type_id: u32,
    connection: DRMModeConnection,
    mm_width: u32,
    mm_height: u32,
    subpixel: DRMModeSubPixel,
    modes: Vec<DRMModeModeInfo>,
    props: DRMModeConnectorProps<'a>,
    prop_values: DRMModeConnectorPropValues<'a>,
    encoders: DRMModeConnectorEncoders<'a>,
}

impl<'a> View for DRMModeConnector<'a> {
    type V = ConnectorModel;

    closed spec fn view(&self) -> ConnectorModel {
        ConnectorModel {
            handle: self.raw,
            connector_id: self.connector_id,
            encoder_id: self.encoder_id,
            connector_type: self.connector_type,
            connector_type_id: self.connector_type_id,
            connection: self.connection,
            mm_width: self.mm_width,
            mm_height: self.mm_height,
            subpixel: self.subpixel,
            modes: self.modes@.map_values(|mode: DRMModeModeInfo| mode@),
            props: self.props@,
            prop_values: self.prop_values@,
            encoders: self.encoders@,
        }
    }
}

/// The calls that give a connector back, in order: the record itself through
/// the native layer's routine, then each of its three arrays through the
/// general-purpose allocator.
pub open spec fn connector_release_plan(conn: ConnectorModel) -> Seq<NativeCall> {
    seq![
        NativeCall::FreeConnector { handle: conn.handle },
        NativeCall::Free { addr: conn.props.addr },
        NativeCall::Free { addr: conn.prop_values.addr },
        NativeCall::Free { addr: conn.encoders.addr },
    ]
}

/// Giving a connector back frees each of its four allocations exactly once
/// and by the convention of its origin: the record by the native layer's
/// routine, every array by the general-purpose allocator.  The mode array, of
/// another origin than those three, is freed by the native layer's routine
/// for mode arrays.
pub proof fn lemma_connector_release_matches_origin(conn: ConnectorModel, modes: usize)
    ensures
        connector_release_plan(conn).len() == 4,
        connector_release_plan(conn)[0].released() == Some(conn.handle),
        connector_release_plan(conn)[0].protocol() == Some(ReleaseProtocol::Library),
        connector_release_plan(conn)[1].released() == Some(conn.props.addr),
        connector_release_plan(conn)[2].released() == Some(conn.prop_values.addr),
        connector_release_plan(conn)[3].released() == Some(conn.encoders.addr),
        forall|i: int|
            1 <= i < 4 ==> (#[trigger] connector_release_plan(conn)[i]).protocol() == Some(
                ReleaseProtocol::Generic,
            ),
        (NativeCall::FreeModeInfo { addr: modes }).released() == Some(modes),
        (NativeCall::FreeModeInfo { addr: modes }).protocol() == Some(ReleaseProtocol::Library),
{
}

impl<'a> DRMModeConnector<'a> {
    /// Takes the answer of a `GetConnector` call.  An empty answer is the
    /// failure of the query.  Any other becomes the owner of the record and
    /// of its arrays; every mode record is decoded into an owned mode, after
    /// which the native mode array is of no more use, and the call that
    /// frees it is returned beside the connector.
    pub fn new<'m>(reply: Option<RawConnector<'a, 'm>>) -> (r: Result<(Self, NativeCall), Error>)
        ensures
            match reply {
                Some(raw) => {
                    &&& r is Ok
                    &&& r.unwrap().0@ == raw@
                    &&& r.unwrap().1 == (NativeCall::FreeModeInfo { addr: raw.modes.addr })
                },
                None => r is Err && r.unwrap_err() == Error::connector_unavailable(),
            },
    {
        match reply {
            Some(raw) => {
                let raw_modes = DRMModeConnectorModes::new(raw.modes);
                let count: usize = raw_modes.len();
                let mut modes: Vec<DRMModeModeInfo> = Vec::new();
                let mut mode: usize = 0;
                while mode < count
                    invariant
                        count == raw_modes@.elems.len(),
                        mode <= count,
                        modes@.len() == mode,
                        forall|j: int|
                            0 <= j < mode ==> (#[trigger] modes@[j])@ == decoded_mode(
                                raw_modes@.elems[j],
                            ),
                    decreases count - mode,
                {
                    let mode_info = match DRMModeModeInfo::new(&raw_modes[mode]) {
                        Ok(mode_info) => mode_info,
                        Err(e) => {
                            return Err(e);
                        },
                    };
                    modes.push(mode_info);
                    mode += 1;
                }
                let spent = raw_modes.release();
                let c = DRMModeConnector {
                    raw: raw.handle,
                    connector_id: raw.connector_id,
                    encoder_id: raw.encoder_id,
                    connector_type: DRMConnectorType::from_raw(raw.connector_type),
                    connector_type_id: raw.connector_type_id,
                    connection: DRMModeConnection::from_raw(raw.connection),
                    mm_width: raw.mm_width,
                    mm_height: raw.mm_height,
                    subpixel: DRMModeSubPixel::from_raw(raw.subpixel),
                    modes,
                    props: DRMModeConnectorProps::new(raw.props),
                    prop_values: DRMModeConnectorPropValues::new(raw.prop_values),
                    encoders: DRMModeConnectorEncoders::new(raw.encoders),
                };
                assert(c@.modes =~= raw@.modes);
                Ok((c, spent))
            },
            None => Err(Error::connector_unavailable()),
        }
    }

    /// Gives the record and its arrays up and names the calls that free
    /// them, each exactly once and by the convention of its origin.
    #[must_use]
    pub fn release(self) -> (calls: Vec<NativeCall>)
        ensures
            calls@ == connector_release_plan(self@),
    {
        let mut calls: Vec<NativeCall> = Vec::new();
        calls.push(NativeCall::FreeConnector { handle: self.raw });
        calls.push(self.props.release());
        calls.push(self.prop_values.release());
        calls.push(self.encoders.release());
        calls
    }

    pub fn connector_id(&self) -> (id: u32)
        ensures
            id == self@.connector_id,
    {
        self.connector_id
    }

    pub fn encoder_id(&self) -> (id: u32)
        ensures
            id == self@.encoder_id,
    {
        self.encoder_id
    }

    pub fn connector_type(&self) -> (kind: DRMConnectorType)
        ensures
            kind == self@.connector_type,
    {
        self.connector_type
    }

    pub fn connector_type_id(&self) -> (id: u32)
        ensures
            id == self@.connector_type_id,
    {
        self.connector_type_id
    }

    pub fn connection(&self) -> (state: DRMModeConnection)
        ensures
            state == self@.connection,
    {
        self.connection
    }

    pub fn mm_width(&self) -> (width: u32)
        ensures
            width == self@.mm_width,
    {
        self.mm_width
    }

    pub fn mm_height(&self) -> (height: u32)
        ensures
            height == self@.mm_height,
    {
        self.mm_height
    }

    pub fn subpixel(&self) -> (layout: DRMModeSubPixel)
        ensures
            layout == self@.subpixel,
    {
        self.subpixel
    }

    /// The modes the connector supports, decoded.
    pub fn modes(&self) -> (modes: &Vec<DRMModeModeInfo>)
        ensures
            modes@.len() == self@.modes.len(),
            forall|i: int| 0 <= i < modes@.len() ==> (#[trigger] modes@[i])@ == self@.modes[i],
    {
        &self.modes
    }

    pub fn props(&self) -> (v: &DRMModeConnectorProps<'a>)
        ensures
            v@ == self@.props,
    {
        &self.props
    }

    pub fn prop_values(&self) -> (v: &DRMModeConnectorPropValues<'a>)
        ensures
            v@ == self@.prop_values,
    {
        &self.prop_values
    }

    pub fn encoders(&self) -> (v: &DRMModeConnectorEncoders<'a>)
        ensures
            v@ == self@.encoders,
    {
        &self.encoders
    }
}

} // verus!
