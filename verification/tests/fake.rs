use adlx::fake::FakeAdlx;
use adlx::ffi::{Args, EntryPoint, Method, Out, Reply};
use adlx::library::{Adlx, REF_LIMIT};
use adlx::wide::encode_wide;

#[test]
fn a_new_library_is_empty() {
    let lib = FakeAdlx::new();
    assert_eq!(lib.len(), 0);
    assert_eq!(lib.refs(1), 0);
    assert_eq!(lib.refs(0), 0);
}

#[test]
fn objects_get_addresses_from_one_on() {
    let mut lib = FakeAdlx::new();
    assert_eq!(lib.add_object("IADLXGPU"), 1);
    assert_eq!(lib.add_object("IADLXGPU"), 2);
    assert_eq!(lib.len(), 2);
    assert_eq!(lib.refs(1), 0);
}

#[test]
fn what_is_not_there_cannot_be_changed() {
    let mut lib = FakeAdlx::new();
    assert!(!lib.add_interface(1, "IADLXGPU"));
    assert!(!lib.add_item(1, 1));
    assert!(!lib.grant(0));
    assert!(!lib.grant(1));
    assert!(!lib.set_reply(1, Method::GpuName, Args::none(), Reply { status: 0, out: Out::zeroed() }));
    assert_eq!(lib.set_text(1, Method::GpuName, "x"), 0);
    let list = lib.add_object("IADLXList");
    assert!(!lib.add_item(list, 7));
    assert!(lib.add_item(list, list));
}

#[test]
fn acquire_and_release_count_by_one() {
    let mut lib = FakeAdlx::new();
    let object = lib.add_object("IADLXInterface");
    assert!(lib.grant(object));
    assert_eq!(lib.acquire(object), 2);
    assert_eq!(lib.acquire(object), 3);
    assert_eq!(lib.refs(object), 3);
    assert_eq!(lib.release(object), 2);
    assert_eq!(lib.release(object), 1);
    assert_eq!(lib.release(object), 0);
    assert_eq!(lib.refs(object), 0);
}

#[test]
fn query_interface_reads_the_name_up_to_the_first_zero() {
    let mut lib = FakeAdlx::new();
    let object = lib.add_object("IADLXGPU");
    assert!(lib.grant(object));
    assert_eq!(lib.query_interface(object, &encode_wide("IADLXGPU")), (0, object));
    assert_eq!(lib.refs(object), 2);
    let mut longer = encode_wide("IADLXGPU");
    longer.extend_from_slice(&encode_wide("1"));
    assert_eq!(lib.query_interface(object, &longer), (0, object));
    assert_eq!(lib.query_interface(object, &encode_wide("IADLXGPU1")).0, 6);
    assert_eq!(lib.query_interface(object, &encode_wide("IADLXGP")).0, 6);
    assert_eq!(lib.query_interface(object, &encode_wide("")).0, 6);
    assert_eq!(lib.refs(object), 3);
}

#[test]
fn texts_are_read_back() {
    let mut lib = FakeAdlx::new();
    let a = lib.add_text("first");
    let b = lib.add_text("second");
    assert_eq!(a, 1);
    assert_eq!(b, 2);
    assert_eq!(lib.read_text(a), "first");
    assert_eq!(lib.read_text(b), "second");
}

#[test]
fn no_reference_is_granted_past_the_limit() {
    let mut lib = FakeAdlx::new();
    let object = lib.add_object("IADLXGPU");
    assert!(lib.grant(object));
    assert!(lib.refs(object) < REF_LIMIT);
}

#[test]
fn terminate_clears_the_table() {
    let mut lib = FakeAdlx::new();
    let object = lib.add_object("IADLXGPU");
    assert!(lib.grant(object));
    lib.set_entry(EntryPoint::Terminate, Reply { status: 0, out: Out::zeroed() });
    assert_eq!(lib.call_entry(EntryPoint::Terminate, 0).status, 0);
    assert_eq!(lib.len(), 0);
    assert_eq!(lib.refs(object), 0);
}

#[test]
fn entry_points_that_are_never_called_are_not_supported() {
    let mut lib = FakeAdlx::new();
    lib.set_entry(EntryPoint::InitializeWithCallerAdl, Reply { status: 0, out: Out::zeroed() });
    assert_eq!(lib.call_entry(EntryPoint::InitializeWithCallerAdl, 0).status, 12);
    assert_eq!(lib.call_entry(EntryPoint::InitializeWithIncompatibleDriver, 0).status, 12);
}

#[test]
fn a_text_that_is_set_gets_the_next_address() {
    let mut lib = FakeAdlx::new();
    let object = lib.add_object("IADLXGPU");
    assert_eq!(lib.add_text("zero"), 1);
    assert_eq!(lib.set_text(object, Method::GpuName, "one"), 2);
    assert_eq!(lib.set_text(object + 1, Method::GpuName, "none"), 0);
    assert_eq!(lib.add_text("two"), 3);
    assert_eq!(lib.read_text(2), "one");
}

#[test]
fn add_back_answers_with_the_status_of_the_library() {
    let mut lib = FakeAdlx::new();
    let list = lib.add_object("IADLXGPUList");
    let item = lib.add_object("IADLXGPU");
    assert!(lib.grant(list));
    assert!(lib.grant(item));
    assert_eq!(lib.list_add_back(list, Method::GpuListAddBack, item), 0);
    assert_eq!(lib.list_size(list), 1);
    assert_eq!(lib.refs(item), 0);
}
