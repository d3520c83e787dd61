use drm::array::{element_count, RawArray};
use drm::device::{Device, Master};
use drm::error::{Error, ErrorKind};
use drm::native::{NativeCall, ReleaseProtocol};
use drm::resources::{
    DRMModeRes, DRMModeResConnectors, DRMModeResCrtcs, DRMModeResEncoders, DRMModeResFramebuffers,
    RawResources,
};

fn master(fd: i32) -> Device<Master> {
    Device::new(fd).elevate(0).expect("granted")
}

fn record<'a>(fbs: &'a [u32], crtcs: &'a [u32], connectors: &'a [u32], encoders: &'a [u32]) -> RawResources<'a> {
    RawResources {
        handle: 0x1000,
        fbs: RawArray::new(0x2000, fbs),
        crtcs: RawArray::new(0x3000, crtcs),
        connectors: RawArray::new(0x4000, connectors),
        encoders: RawArray::new(0x5000, encoders),
        min_width: 320,
        max_width: 8192,
        min_height: 200,
        max_height: 4320,
    }
}

#[test]
fn empty_answer_is_an_availability_error() {
    let failure = master(3).get_resources(None).unwrap_err();
    assert_eq!(failure.kind, ErrorKind::Other);
    assert_eq!(failure.message, "Could not get DRM mode resources");
    assert_eq!(failure, Error::resources_unavailable());
    let failure = DRMModeRes::new(None).unwrap_err();
    assert_eq!(failure, Error::resources_unavailable());
}

#[test]
fn resources_hold_what_the_record_held() {
    let fbs = [70u32, 71];
    let crtcs = [40u32, 41, 42];
    let connectors = [80u32];
    let encoders = [90u32, 91, 92, 93];
    let res = master(3)
        .get_resources(Some(record(&fbs, &crtcs, &connectors, &encoders)))
        .expect("a record was handed over");
    assert_eq!(&**res.framebuffers(), &fbs[..]);
    assert_eq!(&**res.crtcs(), &crtcs[..]);
    assert_eq!(&**res.connectors(), &connectors[..]);
    assert_eq!(&**res.encoders(), &encoders[..]);
    assert_eq!(res.min_width(), 320);
    assert_eq!(res.max_width(), 8192);
    assert_eq!(res.min_height(), 200);
    assert_eq!(res.max_height(), 4320);
}

#[test]
fn views_yield_as_many_elements_as_they_were_made_from() {
    let ids: Vec<u32> = (0u32..17).collect();
    let none: [u32; 0] = [];
    let res = DRMModeRes::new(Some(record(&ids, &none, &ids[..1], &ids[..5]))).expect("a record");
    assert_eq!(res.framebuffers().len(), 17);
    assert_eq!(res.framebuffers().iter().count(), 17);
    assert_eq!(res.framebuffers()[16], 16);
    assert_eq!(res.crtcs().len(), 0);
    assert!(res.crtcs().is_empty());
    assert_eq!(res.connectors().len(), 1);
    assert_eq!(res.encoders().len(), 5);
    assert_eq!(res.encoders().to_vec(), vec![0u32, 1, 2, 3, 4]);
}

#[test]
fn resources_release_each_allocation_once() {
    let ids = [1u32, 2, 3];
    let res = DRMModeRes::new(Some(record(&ids, &ids, &ids, &ids))).expect("a record");
    let calls = res.release();
    assert_eq!(
        calls,
        vec![
            NativeCall::FreeResources { handle: 0x1000 },
            NativeCall::Free { addr: 0x2000 },
            NativeCall::Free { addr: 0x3000 },
            NativeCall::Free { addr: 0x4000 },
            NativeCall::Free { addr: 0x5000 },
        ]
    );
    let library: Vec<&NativeCall> = calls
        .iter()
        .filter(|call| call.release_protocol() == Some(ReleaseProtocol::Library))
        .collect();
    assert_eq!(library, vec![&NativeCall::FreeResources { handle: 0x1000 }]);
    let generic: usize = calls
        .iter()
        .filter(|call| call.release_protocol() == Some(ReleaseProtocol::Generic))
        .count();
    assert_eq!(generic, 4);
}

#[test]
fn each_view_names_its_own_release() {
    let fbs = [1u32];
    let none: [u32; 0] = [];
    let raw = RawResources {
        handle: 0xa0,
        fbs: RawArray::new(0xb0, &fbs),
        crtcs: RawArray::new(0, &none),
        connectors: RawArray::new(0, &none),
        encoders: RawArray::new(usize::MAX, &none),
        min_width: 0,
        max_width: 0,
        min_height: 0,
        max_height: 0,
    };
    let calls = DRMModeRes::new(Some(raw)).expect("a record").release();
    assert_eq!(calls.len(), 5);
    assert_eq!(calls[0], NativeCall::FreeResources { handle: 0xa0 });
    assert_eq!(calls[1], NativeCall::Free { addr: 0xb0 });
    assert_eq!(calls[2], NativeCall::Free { addr: 0 });
    assert_eq!(calls[3], NativeCall::Free { addr: 0 });
    assert_eq!(calls[4], NativeCall::Free { addr: usize::MAX });
}

#[test]
fn release_calls_know_their_protocol_and_address() {
    let free = NativeCall::Free { addr: 16 };
    assert_eq!(free.release_protocol(), Some(ReleaseProtocol::Generic));
    assert_eq!(free.released_address(), Some(16));
    let modes = NativeCall::FreeModeInfo { addr: 32 };
    assert_eq!(modes.release_protocol(), Some(ReleaseProtocol::Library));
    assert_eq!(modes.released_address(), Some(32));
    let resources = NativeCall::FreeResources { handle: 48 };
    assert_eq!(resources.release_protocol(), Some(ReleaseProtocol::Library));
    assert_eq!(resources.released_address(), Some(48));
    let connector = NativeCall::FreeConnector { handle: 64 };
    assert_eq!(connector.release_protocol(), Some(ReleaseProtocol::Library));
    assert_eq!(connector.released_address(), Some(64));
    for call in [
        NativeCall::Available,
        NativeCall::SetMaster { fd: 1 },
        NativeCall::DropMaster { fd: 1 },
        NativeCall::GetResources { fd: 1 },
        NativeCall::GetConnector { fd: 1, connector_id: 2 },
    ] {
        assert_eq!(call.release_protocol(), None);
        assert_eq!(call.released_address(), None);
    }
}

#[test]
fn native_counts_below_zero_are_empty() {
    assert_eq!(element_count(0), 0);
    assert_eq!(element_count(1), 1);
    assert_eq!(element_count(3), 3);
    assert_eq!(element_count(i32::MAX), 2147483647);
    assert_eq!(element_count(-1), 0);
    assert_eq!(element_count(i32::MIN), 0);
}

#[test]
fn raw_array_keeps_address_and_elements() {
    let values = [5u64, 6, 7];
    let raw = RawArray::new(0xdead, &values);
    assert_eq!(raw.addr, 0xdead);
    assert_eq!(raw.elems, &values[..]);
}

#[test]
fn framebuffer_view_reads_and_releases() {
    let ids = [3u32, 1, 4, 1, 5];
    let view = DRMModeResFramebuffers::new(RawArray::new(0x7000, &ids));
    assert_eq!(view.len(), 5);
    assert_eq!(&*view, &ids[..]);
    assert_eq!(view[2], 4);
    assert_eq!(view.release(), NativeCall::Free { addr: 0x7000 });
}

#[test]
fn crtc_view_reads_and_releases() {
    let ids = [9u32, 2];
    let view = DRMModeResCrtcs::new(RawArray::new(0x7100, &ids));
    assert_eq!(view.len(), 2);
    assert_eq!(&*view, &ids[..]);
    assert_eq!(view.release(), NativeCall::Free { addr: 0x7100 });
}

#[test]
fn connector_id_view_reads_and_releases() {
    let ids = [6u32];
    let view = DRMModeResConnectors::new(RawArray::new(0x7200, &ids));
    assert_eq!(view.len(), 1);
    assert_eq!(view.first(), Some(&6));
    assert_eq!(view.release(), NativeCall::Free { addr: 0x7200 });
}

#[test]
fn encoder_id_view_reads_and_releases() {
    let ids: [u32; 0] = [];
    let view = DRMModeResEncoders::new(RawArray::new(0, &ids));
    assert_eq!(view.len(), 0);
    assert_eq!(view.first(), None);
    assert_eq!(view.release(), NativeCall::Free { addr: 0 });
}
