use adlx::fake::{Call, FakeAdlx};
use adlx::{Error, Gpu, Gpu1, Interface, InterfaceImpl, List};

fn library_with_gpu() -> (FakeAdlx, usize) {
    let mut lib = FakeAdlx::new();
    let object = lib.add_object("IADLXGPU");
    assert_ne!(object, 0);
    assert!(lib.add_interface(object, "IADLXInterface"));
    (lib, object)
}

#[test]
fn a_handle_keeps_the_address_it_was_made_from() {
    let handle = InterfaceImpl::from_raw(0x1000);
    assert_eq!(handle.as_raw(), 0x1000);
    assert_eq!(handle.into_raw(), 0x1000);
    let gpu = Gpu::from_raw(7);
    assert_eq!(gpu.as_raw(), 7);
    assert_eq!(gpu.into_raw(), 7);
}

#[test]
fn drop_releases_exactly_once() {
    let (mut lib, object) = library_with_gpu();
    let before = lib.refs(object);
    assert!(lib.grant(object));
    assert_eq!(lib.refs(object), before + 1);
    let handle = Gpu::from_raw(object);
    handle.drop(&mut lib);
    assert_eq!(lib.refs(object), before);
}

#[test]
fn from_raw_and_as_raw_take_no_reference() {
    let (mut lib, object) = library_with_gpu();
    assert!(lib.grant(object));
    let handle = Gpu::from_raw(object);
    assert_eq!(lib.refs(object), 1);
    assert_eq!(handle.as_raw(), object);
    assert_eq!(lib.refs(object), 1);
    handle.drop(&mut lib);
}

#[test]
fn into_raw_gives_nothing_up() {
    let (mut lib, object) = library_with_gpu();
    assert!(lib.grant(object));
    let handle = Gpu::from_raw(object);
    let raw = handle.into_raw();
    assert_eq!(raw, object);
    assert_eq!(lib.refs(object), 1);
    Gpu::from_raw(raw).drop(&mut lib);
    assert_eq!(lib.refs(object), 0);
}

#[test]
fn clone_acquires_and_both_copies_release() {
    let (mut lib, object) = library_with_gpu();
    assert!(lib.grant(object));
    let first = Gpu::from_raw(object);
    let copy = first.clone(&mut lib);
    assert_eq!(copy.as_raw(), object);
    assert_eq!(lib.refs(object), 2);
    copy.drop(&mut lib);
    assert_eq!(lib.refs(object), 1);
    assert_eq!(first.as_raw(), object);
    first.drop(&mut lib);
    assert_eq!(lib.refs(object), 0);
}

#[test]
fn dropping_the_first_handle_keeps_the_copy_alive() {
    let (mut lib, object) = library_with_gpu();
    assert!(lib.grant(object));
    let first = InterfaceImpl::from_raw(object);
    let copy = first.clone(&mut lib);
    first.drop(&mut lib);
    assert_eq!(lib.refs(object), 1);
    let again = copy.clone(&mut lib);
    assert_eq!(lib.refs(object), 2);
    again.drop(&mut lib);
    copy.drop(&mut lib);
    assert_eq!(lib.refs(object), 0);
}

#[test]
fn cast_to_own_interface_succeeds_on_the_same_object() {
    let (mut lib, object) = library_with_gpu();
    assert!(lib.grant(object));
    let gpu = Gpu::from_raw(object);
    let again: Gpu = gpu.cast::<Gpu, FakeAdlx>(&mut lib).unwrap();
    assert_eq!(again.as_raw(), object);
    assert_eq!(lib.refs(object), 2);
    again.drop(&mut lib);
    gpu.drop(&mut lib);
    assert_eq!(lib.refs(object), 0);
}

#[test]
fn cast_to_unrelated_interface_is_unknown_interface() {
    let (mut lib, object) = library_with_gpu();
    assert!(lib.grant(object));
    let gpu = Gpu::from_raw(object);
    let r = gpu.cast::<List, FakeAdlx>(&mut lib);
    assert_eq!(r.err(), Some(Error(6)));
    assert_eq!(lib.refs(object), 1);
    let r = gpu.cast::<Gpu1, FakeAdlx>(&mut lib);
    assert_eq!(r.err(), Some(Error(6)));
    assert_eq!(lib.refs(object), 1);
    gpu.drop(&mut lib);
}

#[test]
fn cast_to_base_and_to_derived_where_the_object_answers() {
    let (mut lib, object) = library_with_gpu();
    assert!(lib.add_interface(object, "IADLXGPU1"));
    assert!(lib.grant(object));
    let gpu = Gpu::from_raw(object);
    let gpu1 = gpu.cast::<Gpu1, FakeAdlx>(&mut lib).unwrap();
    assert_eq!(gpu1.as_raw(), object);
    let base = gpu1.cast::<InterfaceImpl, FakeAdlx>(&mut lib).unwrap();
    assert_eq!(base.as_raw(), object);
    assert_eq!(lib.refs(object), 3);
    let back = base.cast::<Gpu, FakeAdlx>(&mut lib).unwrap();
    assert_eq!(lib.refs(object), 4);
    back.drop(&mut lib);
    base.drop(&mut lib);
    gpu1.drop(&mut lib);
    gpu.drop(&mut lib);
    assert_eq!(lib.refs(object), 0);
}

#[test]
fn interface_identities() {
    assert_eq!(InterfaceImpl::IID, "IADLXInterface");
    assert_eq!(InterfaceImpl::interface_id(), "IADLXInterface");
    assert_eq!(Gpu::IID, "IADLXGPU");
    assert_eq!(Gpu::interface_id(), Gpu::IID);
    assert_eq!(Gpu1::interface_id(), "IADLXGPU1");
    assert_eq!(List::interface_id(), "IADLXList");
    assert_eq!(adlx::GpuList::interface_id(), "IADLXGPUList");
    assert_eq!(adlx::DisplayList::interface_id(), "IADLXDisplayList");
    assert_eq!(adlx::Display::interface_id(), "IADLXDisplay");
    assert_eq!(adlx::DisplayFreeSync::interface_id(), "IADLXDisplayFreeSync");
    assert_eq!(adlx::DisplayServices::interface_id(), "IADLXDisplayServices");
    assert_eq!(adlx::GpuMetrics::interface_id(), "IADLXGPUMetrics");
    assert_eq!(adlx::GpuMetricsList::interface_id(), "IADLXGpuMetricsList");
    assert_eq!(adlx::GpuMetricsSupport::interface_id(), "IADLXGpuMetricsSupport");
    assert_eq!(
        adlx::PerformanceMonitoringServices::interface_id(),
        "IADLXPerformanceMonitoringServices"
    );
    assert_eq!(adlx::System1::interface_id(), "IADLXSystem1");
    assert_eq!(adlx::ThreeDChill::interface_id(), "IADLX3DChill");
    assert_eq!(
        adlx::ThreeDFrameRateTargetControl::interface_id(),
        "IADLX3DFrameRateTargetControl"
    );
    assert_eq!(adlx::ThreeDSettingsServices::interface_id(), "IADLX3DSettingsServices");
    assert_eq!(
        adlx::ThreeDWaitForVerticalRefresh::interface_id(),
        "IADLX3DWaitForVerticalRefresh"
    );
}

#[test]
fn release_is_called_exactly_once_over_the_life_of_a_handle() {
    let (mut lib, object) = library_with_gpu();
    assert!(lib.grant(object));
    let handle = Gpu::from_raw(object);
    assert_eq!(handle.as_raw(), object);
    assert!(lib.calls().is_empty());
    handle.drop(&mut lib);
    assert_eq!(lib.calls(), &vec![Call::Release(object)]);
}

#[test]
fn a_handle_that_a_cast_made_releases_once_too() {
    let (mut lib, object) = library_with_gpu();
    assert!(lib.grant(object));
    let gpu = Gpu::from_raw(object);
    let before = lib.refs(object);
    let base = gpu.cast::<InterfaceImpl, FakeAdlx>(&mut lib).unwrap();
    base.drop(&mut lib);
    assert_eq!(lib.refs(object), before);
    assert_eq!(lib.calls(), &vec![Call::QueryInterface(object), Call::Release(object)]);
}

#[test]
fn clone_and_drops_in_the_order_of_their_calls() {
    let (mut lib, object) = library_with_gpu();
    assert!(lib.grant(object));
    let first = Gpu::from_raw(object);
    let copy = first.clone(&mut lib);
    first.drop(&mut lib);
    assert_eq!(lib.refs(object), 1);
    copy.drop(&mut lib);
    assert_eq!(
        lib.calls(),
        &vec![Call::Acquire(object), Call::Release(object), Call::Release(object)]
    );
}

#[test]
fn into_raw_calls_nothing() {
    let (mut lib, object) = library_with_gpu();
    assert!(lib.grant(object));
    let raw = Gpu::from_raw(object).into_raw();
    assert_eq!(raw, object);
    assert!(lib.calls().is_empty());
    assert_eq!(lib.refs(object), 1);
}

#[test]
fn a_refused_cast_carries_the_status_of_the_call() {
    let (mut lib, object) = library_with_gpu();
    assert!(lib.grant(object));
    let gpu = Gpu::from_raw(object);
    for status in [12, 7, 6, -1, i32::MAX] {
        assert!(lib.set_refusal(status));
        assert_eq!(gpu.cast::<List, FakeAdlx>(&mut lib).err(), Some(Error(status)));
        assert_eq!(lib.refs(object), 1);
    }
    assert!(!lib.set_refusal(0));
    assert_eq!(gpu.cast::<List, FakeAdlx>(&mut lib).err(), Some(Error(i32::MAX)));
    assert!(gpu.cast::<Gpu, FakeAdlx>(&mut lib).is_ok());
}

#[test]
fn a_refused_cast_is_not_asked_again() {
    let (mut lib, object) = library_with_gpu();
    assert!(lib.grant(object));
    let gpu = Gpu::from_raw(object);
    assert!(gpu.cast::<List, FakeAdlx>(&mut lib).is_err());
    assert_eq!(lib.calls(), &vec![Call::QueryInterface(object)]);
}
