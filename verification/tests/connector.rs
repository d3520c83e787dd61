use drm::array::RawArray;
use drm::connector::{
    DRMConnectorType, DRMModeConnection, DRMModeConnector, DRMModeConnectorEncoders,
    DRMModeConnectorModes, DRMModeConnectorPropValues, DRMModeConnectorProps, DRMModeSubPixel,
    RawConnector,
};
use drm::device::{Device, Master};
use drm::error::{Error, ErrorKind};
use drm::mode::{RawModeInfo, DRM_DISPLAY_MODE_LEN};
use drm::native::{NativeCall, ReleaseProtocol};

fn master(fd: i32) -> Device<Master> {
    Device::new(fd).elevate(0).expect("granted")
}

fn native_mode(name: &[u8], width: u16, height: u16, refresh: u32) -> RawModeInfo {
    let mut buffer = [0u8; DRM_DISPLAY_MODE_LEN];
    buffer[..name.len()].copy_from_slice(name);
    RawModeInfo {
        clock: 1000 * refresh,
        hdisplay: width,
        hsync_start: width + 8,
        hsync_end: width + 16,
        htotal: width + 32,
        hskew: 0,
        vdisplay: height,
        vsync_start: height + 2,
        vsync_end: height + 4,
        vtotal: height + 8,
        vscan: 0,
        vrefresh: refresh,
        flags: 0,
        type_: 0,
        name: buffer,
    }
}

fn record<'a, 'm>(
    modes: &'m [RawModeInfo],
    props: &'a [u32],
    prop_values: &'a [u64],
    encoders: &'a [u32],
) -> RawConnector<'a, 'm> {
    RawConnector {
        handle: 0x100,
        connector_id: 33,
        encoder_id: 44,
        connector_type: 11,
        connector_type_id: 1,
        connection: 1,
        mm_width: 530,
        mm_height: 300,
        subpixel: 2,
        modes: RawArray::new(0x200, modes),
        props: RawArray::new(0x300, props),
        prop_values: RawArray::new(0x400, prop_values),
        encoders: RawArray::new(0x500, encoders),
    }
}

#[test]
fn empty_answer_fails_the_connector_query() {
    let failure = master(3).get_connector(None).unwrap_err();
    assert_eq!(failure.kind, ErrorKind::Other);
    assert_eq!(failure.message, "Unable to get mode connector");
    assert_eq!(failure, Error::connector_unavailable());
    let failure = DRMModeConnector::new(None).unwrap_err();
    assert_eq!(failure, Error::connector_unavailable());
}

#[test]
fn three_native_modes_give_three_decoded_modes() {
    let mut native_modes = vec![
        native_mode(b"1920x1080", 1920, 1080, 60),
        native_mode(b"1280x720", 1280, 720, 50),
        native_mode(b"640x480\0stale", 640, 480, 75),
    ];
    let props = [1u32, 2];
    let prop_values = [10u64, 20];
    let encoders = [44u32];
    let (connector, spent) = master(3)
        .get_connector(Some(record(&native_modes, &props, &prop_values, &encoders)))
        .expect("a record was handed over");
    assert_eq!(spent, NativeCall::FreeModeInfo { addr: 0x200 });

    for mode in native_modes.iter_mut() {
        *mode = native_mode(b"overwritten", 1, 1, 1);
    }
    native_modes.clear();

    assert_eq!(connector.modes().len(), 3);
    assert_eq!(connector.modes()[0].name(), b"1920x1080");
    assert_eq!(connector.modes()[1].name(), b"1280x720");
    assert_eq!(connector.modes()[2].name(), b"640x480");
    assert_eq!(connector.modes()[0].hinfo().display, 1920);
    assert_eq!(connector.modes()[0].vinfo().display, 1080);
    assert_eq!(connector.modes()[1].vrefresh(), 50);
    assert_eq!(connector.modes()[1].clock(), 50000);
    assert_eq!(connector.modes()[2].hinfo().total, 672);
    assert_eq!(connector.modes()[2].vinfo().sync_end, 484);
}

#[test]
fn connector_holds_what_the_record_held() {
    let modes = [native_mode(b"800x600", 800, 600, 60)];
    let props = [7u32, 8, 9];
    let prop_values = [u64::MAX, 0, 77];
    let encoders = [44u32, 45];
    let (connector, _spent) =
        DRMModeConnector::new(Some(record(&modes, &props, &prop_values, &encoders)))
            .expect("a record");
    assert_eq!(connector.connector_id(), 33);
    assert_eq!(connector.encoder_id(), 44);
    assert_eq!(connector.connector_type(), DRMConnectorType::HDMIA);
    assert_eq!(connector.connector_type_id(), 1);
    assert_eq!(connector.connection(), DRMModeConnection::Connected);
    assert_eq!(connector.mm_width(), 530);
    assert_eq!(connector.mm_height(), 300);
    assert_eq!(connector.subpixel(), DRMModeSubPixel::HorizontalRGB);
    assert_eq!(&**connector.props(), &props[..]);
    assert_eq!(&**connector.prop_values(), &prop_values[..]);
    assert_eq!(&**connector.encoders(), &encoders[..]);
    assert_eq!(connector.props().len(), 3);
    assert_eq!(connector.prop_values().len(), 3);
    assert_eq!(connector.encoders().len(), 2);
    assert_eq!(connector.modes().len(), 1);
}

#[test]
fn connector_without_modes_or_arrays() {
    let modes: [RawModeInfo; 0] = [];
    let none32: [u32; 0] = [];
    let none64: [u64; 0] = [];
    let (connector, spent) =
        DRMModeConnector::new(Some(record(&modes, &none32, &none64, &none32))).expect("a record");
    assert!(connector.modes().is_empty());
    assert!(connector.props().is_empty());
    assert!(connector.prop_values().is_empty());
    assert!(connector.encoders().is_empty());
    assert_eq!(spent, NativeCall::FreeModeInfo { addr: 0x200 });
}

#[test]
fn connector_releases_each_allocation_once() {
    let modes = [native_mode(b"800x600", 800, 600, 60)];
    let props = [7u32];
    let prop_values = [1u64];
    let encoders = [44u32];
    let (connector, spent) =
        DRMModeConnector::new(Some(record(&modes, &props, &prop_values, &encoders)))
            .expect("a record");
    assert_eq!(spent.release_protocol(), Some(ReleaseProtocol::Library));
    assert_eq!(spent.released_address(), Some(0x200));
    let calls = connector.release();
    assert_eq!(
        calls,
        vec![
            NativeCall::FreeConnector { handle: 0x100 },
            NativeCall::Free { addr: 0x300 },
            NativeCall::Free { addr: 0x400 },
            NativeCall::Free { addr: 0x500 },
        ]
    );
    assert_eq!(calls[0].release_protocol(), Some(ReleaseProtocol::Library));
    for call in &calls[1..] {
        assert_eq!(call.release_protocol(), Some(ReleaseProtocol::Generic));
    }
}

#[test]
fn connector_kinds_by_number() {
    let kinds = [
        DRMConnectorType::Unknown,
        DRMConnectorType::VGA,
        DRMConnectorType::DVII,
        DRMConnectorType::DVID,
        DRMConnectorType::DVIA,
        DRMConnectorType::Composite,
        DRMConnectorType::SVIDEO,
        DRMConnectorType::LVDS,
        DRMConnectorType::Component,
        DRMConnectorType::NinePinDIN,
        DRMConnectorType::DisplayPort,
        DRMConnectorType::HDMIA,
        DRMConnectorType::HDMIB,
        DRMConnectorType::TV,
        DRMConnectorType::EDP,
        DRMConnectorType::VIRTUAL,
        DRMConnectorType::DSI,
        DRMConnectorType::DPI,
    ];
    let mut code: u32 = 0;
    for kind in kinds {
        assert_eq!(DRMConnectorType::from_raw(code), kind);
        code += 1;
    }
    assert_eq!(DRMConnectorType::from_raw(18), DRMConnectorType::Unknown);
    assert_eq!(DRMConnectorType::from_raw(u32::MAX), DRMConnectorType::Unknown);
}

#[test]
fn connection_states_by_number() {
    assert_eq!(DRMModeConnection::from_raw(1), DRMModeConnection::Connected);
    assert_eq!(DRMModeConnection::from_raw(2), DRMModeConnection::Disconnected);
    assert_eq!(DRMModeConnection::from_raw(3), DRMModeConnection::UnknownConnection);
    assert_eq!(DRMModeConnection::from_raw(0), DRMModeConnection::UnknownConnection);
    assert_eq!(DRMModeConnection::from_raw(4), DRMModeConnection::UnknownConnection);
    assert_eq!(DRMModeConnection::from_raw(u32::MAX), DRMModeConnection::UnknownConnection);
}

#[test]
fn subpixel_layouts_by_number() {
    assert_eq!(DRMModeSubPixel::from_raw(1), DRMModeSubPixel::Unknown);
    assert_eq!(DRMModeSubPixel::from_raw(2), DRMModeSubPixel::HorizontalRGB);
    assert_eq!(DRMModeSubPixel::from_raw(3), DRMModeSubPixel::HorizontalBGR);
    assert_eq!(DRMModeSubPixel::from_raw(4), DRMModeSubPixel::VerticalRGB);
    assert_eq!(DRMModeSubPixel::from_raw(5), DRMModeSubPixel::VerticalBGR);
    assert_eq!(DRMModeSubPixel::from_raw(6), DRMModeSubPixel::NoSubPixel);
    assert_eq!(DRMModeSubPixel::from_raw(0), DRMModeSubPixel::Unknown);
    assert_eq!(DRMModeSubPixel::from_raw(7), DRMModeSubPixel::Unknown);
}

#[test]
fn unknown_numbers_in_a_record_decode_to_unknown() {
    let modes: [RawModeInfo; 0] = [];
    let none32: [u32; 0] = [];
    let none64: [u64; 0] = [];
    let mut raw = record(&modes, &none32, &none64, &none32);
    raw.connector_type = 99;
    raw.connection = 0;
    raw.subpixel = 42;
    let (connector, _spent) = DRMModeConnector::new(Some(raw)).expect("a record");
    assert_eq!(connector.connector_type(), DRMConnectorType::Unknown);
    assert_eq!(connector.connection(), DRMModeConnection::UnknownConnection);
    assert_eq!(connector.subpixel(), DRMModeSubPixel::Unknown);
}

#[test]
fn mode_view_reads_and_releases_by_the_mode_routine() {
    let modes = [
        native_mode(b"a", 1, 2, 3),
        native_mode(b"b", 4, 5, 6),
    ];
    let view = DRMModeConnectorModes::new(RawArray::new(0x9000, &modes));
    assert_eq!(view.len(), 2);
    assert_eq!(view[0].hdisplay, 1);
    assert_eq!(view[1].vdisplay, 5);
    assert_eq!(view[1].name[0], b'b');
    let call = view.release();
    assert_eq!(call, NativeCall::FreeModeInfo { addr: 0x9000 });
    assert_eq!(call.release_protocol(), Some(ReleaseProtocol::Library));
}

#[test]
fn property_views_read_and_release_by_the_allocator() {
    let props = [1u32, 2, 3];
    let values = [u64::MAX, 1 << 40, 0];
    let encoders = [12u32, 13];
    let props_view = DRMModeConnectorProps::new(RawArray::new(0x9100, &props));
    let values_view = DRMModeConnectorPropValues::new(RawArray::new(0x9200, &values));
    let encoders_view = DRMModeConnectorEncoders::new(RawArray::new(0x9300, &encoders));
    assert_eq!(props_view.len(), 3);
    assert_eq!(values_view.len(), 3);
    assert_eq!(encoders_view.len(), 2);
    assert_eq!(&*props_view, &props[..]);
    assert_eq!(&*values_view, &values[..]);
    assert_eq!(&*encoders_view, &encoders[..]);
    assert_eq!(props_view.release(), NativeCall::Free { addr: 0x9100 });
    assert_eq!(values_view.release(), NativeCall::Free { addr: 0x9200 });
    assert_eq!(encoders_view.release(), NativeCall::Free { addr: 0x9300 });
}
