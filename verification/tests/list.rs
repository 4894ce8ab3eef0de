use adlx::fake::{Call, FakeAdlx};
use adlx::{Display, DisplayList, Error, Gpu, GpuList, GpuMetricsList, Interface, List};

/// A GPU list with `count` GPUs; the caller holds one reference to the list.
fn gpu_list(count: usize) -> (FakeAdlx, usize, Vec<usize>) {
    let mut lib = FakeAdlx::new();
    let list = lib.add_object("IADLXGPUList");
    assert!(lib.add_interface(list, "IADLXList"));
    assert!(lib.add_interface(list, "IADLXInterface"));
    let mut gpus = Vec::new();
    for _ in 0..count {
        let gpu = lib.add_object("IADLXGPU");
        assert!(lib.add_item(list, gpu));
        gpus.push(gpu);
    }
    assert!(lib.grant(list));
    (lib, list, gpus)
}

#[test]
fn list_of_three() {
    let (mut lib, raw, gpus) = gpu_list(3);
    let list = GpuList::from_raw(raw);
    assert_eq!(list.size(&mut lib), 3);

    let first = list.at(&mut lib, 0).unwrap();
    let second = list.at(&mut lib, 1).unwrap();
    let third = list.at(&mut lib, 2).unwrap();
    assert_eq!(first.as_raw(), gpus[0]);
    assert_eq!(second.as_raw(), gpus[1]);
    assert_eq!(third.as_raw(), gpus[2]);
    assert!(list.at(&mut lib, 3).is_err());

    let all = list.iter().collect(&mut lib);
    assert_eq!(all.len(), 3);
    assert_eq!(all[0].as_raw(), first.as_raw());
    assert_eq!(all[1].as_raw(), second.as_raw());
    assert_eq!(all[2].as_raw(), third.as_raw());

    for gpu in all {
        gpu.drop(&mut lib);
    }
    first.drop(&mut lib);
    second.drop(&mut lib);
    third.drop(&mut lib);
    for gpu in gpus {
        assert_eq!(lib.refs(gpu), 0);
    }
    list.drop(&mut lib);
    assert_eq!(lib.refs(raw), 0);
}

#[test]
fn at_succeeds_below_the_size_and_fails_from_it_on() {
    for count in [0usize, 1, 2, 5] {
        let (mut lib, raw, gpus) = gpu_list(count);
        let list = GpuList::from_raw(raw);
        assert_eq!(list.size(&mut lib) as usize, count);
        for i in 0..count {
            let gpu = list.at(&mut lib, i as u32).unwrap();
            assert_eq!(gpu.as_raw(), gpus[i]);
            gpu.drop(&mut lib);
        }
        for i in [count as u32, count as u32 + 1, 1000, u32::MAX] {
            assert!(list.at(&mut lib, i).is_err());
        }
    }
}

#[test]
fn at_hands_out_a_reference_of_its_own() {
    let (mut lib, raw, gpus) = gpu_list(2);
    let list = GpuList::from_raw(raw);
    let a = list.at(&mut lib, 1).unwrap();
    let b = list.at(&mut lib, 1).unwrap();
    assert_eq!(lib.refs(gpus[1]), 2);
    assert_eq!(lib.refs(gpus[0]), 0);
    a.drop(&mut lib);
    assert_eq!(lib.refs(gpus[1]), 1);
    b.drop(&mut lib);
    assert_eq!(lib.refs(gpus[1]), 0);
}

#[test]
fn a_failed_at_changes_nothing() {
    let (mut lib, raw, gpus) = gpu_list(2);
    let list = GpuList::from_raw(raw);
    assert!(list.at(&mut lib, 2).is_err());
    assert_eq!(lib.refs(raw), 1);
    assert_eq!(lib.refs(gpus[0]), 0);
    assert_eq!(lib.refs(gpus[1]), 0);
    assert_eq!(list.size(&mut lib), 2);
}

#[test]
fn pass_yields_one_after_the_other_and_then_nothing() {
    let (mut lib, raw, gpus) = gpu_list(3);
    let list = GpuList::from_raw(raw);
    let mut pass = list.iter();
    assert_eq!(pass.len(&mut lib), 3);
    for expected in &gpus {
        let gpu = pass.next(&mut lib).unwrap();
        assert_eq!(gpu.as_raw(), *expected);
        gpu.drop(&mut lib);
    }
    assert!(pass.next(&mut lib).is_none());
    assert!(pass.next(&mut lib).is_none());
}

#[test]
fn a_fresh_pass_starts_over() {
    let (mut lib, raw, gpus) = gpu_list(2);
    let list = GpuList::from_raw(raw);
    let mut pass = list.iter();
    pass.next(&mut lib).unwrap().drop(&mut lib);
    pass.next(&mut lib).unwrap().drop(&mut lib);
    assert!(pass.next(&mut lib).is_none());
    let mut again = list.iter();
    let first = again.next(&mut lib).unwrap();
    assert_eq!(first.as_raw(), gpus[0]);
    first.drop(&mut lib);
}

#[test]
fn pass_over_an_empty_list_yields_nothing() {
    let (mut lib, raw, _) = gpu_list(0);
    let list = GpuList::from_raw(raw);
    assert!(list.iter().next(&mut lib).is_none());
    assert_eq!(list.iter().collect(&mut lib).len(), 0);
}

#[test]
fn pass_sees_an_element_that_was_added_on_the_way() {
    let (mut lib, raw, gpus) = gpu_list(1);
    let list = GpuList::from_raw(raw);
    let mut pass = list.iter();
    pass.next(&mut lib).unwrap().drop(&mut lib);
    let late = lib.add_object("IADLXGPU");
    assert!(lib.add_item(raw, late));
    let gpu = pass.next(&mut lib).unwrap();
    assert_eq!(gpu.as_raw(), late);
    assert_ne!(late, gpus[0]);
    gpu.drop(&mut lib);
    assert!(pass.next(&mut lib).is_none());
}

#[test]
fn add_back_hands_the_reference_over_to_the_list() {
    let (mut lib, raw, _) = gpu_list(1);
    let list = GpuList::from_raw(raw);
    let extra = lib.add_object("IADLXGPU");
    assert!(lib.grant(extra));
    let gpu = Gpu::from_raw(extra);
    assert_eq!(list.add_back(&mut lib, gpu), Ok(()));
    assert_eq!(lib.refs(extra), 0);
    assert_eq!(list.size(&mut lib), 2);
    let again = list.at(&mut lib, 1).unwrap();
    assert_eq!(again.as_raw(), extra);
    assert_eq!(lib.refs(extra), 1);
    again.drop(&mut lib);
}

#[test]
fn size_is_reached_through_the_base_list() {
    let (mut lib, raw, _) = gpu_list(4);
    let list = GpuList::from_raw(raw);
    let base: &List = &list;
    assert_eq!(base.as_raw(), raw);
    assert_eq!(base.size(&mut lib), 4);
    let direct = List::from_raw(raw);
    assert_eq!(direct.size(&mut lib), list.size(&mut lib));
}

#[test]
fn an_element_of_another_interface_is_not_handed_out() {
    let mut lib = FakeAdlx::new();
    let raw = lib.add_object("IADLXGPUList");
    let display = lib.add_object("IADLXDisplay");
    assert!(lib.add_item(raw, display));
    assert!(lib.grant(raw));
    let list = GpuList::from_raw(raw);
    assert_eq!(list.size(&mut lib), 1);
    assert!(list.at(&mut lib, 0).is_err());
    assert_eq!(lib.refs(display), 0);
    assert!(list.iter().next(&mut lib).is_none());
}

#[test]
fn display_list_of_two() {
    let mut lib = FakeAdlx::new();
    let raw = lib.add_object("IADLXDisplayList");
    let a = lib.add_object("IADLXDisplay");
    let b = lib.add_object("IADLXDisplay");
    assert!(lib.add_item(raw, a));
    assert!(lib.add_item(raw, b));
    assert!(lib.grant(raw));
    let list = DisplayList::from_raw(raw);
    assert_eq!(list.size(&mut lib), 2);
    let first: Display = list.at(&mut lib, 0).unwrap();
    assert_eq!(first.as_raw(), a);
    assert!(list.at(&mut lib, 2).is_err());
    let mut pass = list.iter();
    assert_eq!(pass.len(&mut lib), 2);
    assert_eq!(pass.next(&mut lib).unwrap().as_raw(), a);
    assert_eq!(pass.next(&mut lib).unwrap().as_raw(), b);
    assert!(pass.next(&mut lib).is_none());
    let all = list.iter().collect(&mut lib);
    assert_eq!(all.len(), 2);
    assert_eq!(all[1].as_raw(), b);
}

#[test]
fn metrics_list_at_and_add_back() {
    let mut lib = FakeAdlx::new();
    let raw = lib.add_object("IADLXGpuMetricsList");
    let sample = lib.add_object("IADLXGPUMetrics");
    assert!(lib.add_item(raw, sample));
    assert!(lib.grant(raw));
    let list = GpuMetricsList::from_raw(raw);
    let first = list.at(&mut lib, 0).unwrap();
    assert_eq!(first.as_raw(), sample);
    let err: Result<_, Error> = list.at(&mut lib, 1);
    assert!(err.is_err());
    assert_eq!(list.add_back(&mut lib, first), Ok(()));
    assert_eq!(lib.refs(sample), 0);
    let second = list.at(&mut lib, 1).unwrap();
    assert_eq!(second.as_raw(), sample);
}

#[test]
fn a_pass_asks_for_the_size_before_each_element() {
    let (mut lib, raw, gpus) = gpu_list(2);
    let list = GpuList::from_raw(raw);
    let all = list.iter().collect(&mut lib);
    assert_eq!(all.len(), 2);
    assert_eq!(
        lib.calls(),
        &vec![
            Call::Size(raw),
            Call::At(raw, 0),
            Call::Size(raw),
            Call::At(raw, 1),
            Call::Size(raw),
        ]
    );
    assert_eq!(lib.refs(gpus[0]), 1);
    assert_eq!(lib.refs(gpus[1]), 1);
}

#[test]
fn add_back_passes_the_element_on_without_releasing_it() {
    let (mut lib, raw, _) = gpu_list(0);
    let list = GpuList::from_raw(raw);
    let extra = lib.add_object("IADLXGPU");
    assert!(lib.grant(extra));
    assert_eq!(list.add_back(&mut lib, Gpu::from_raw(extra)), Ok(()));
    assert_eq!(lib.calls(), &vec![Call::AddBack(raw, extra)]);
}

#[test]
fn a_failed_at_carries_the_status_of_the_call() {
    let (mut lib, raw, _) = gpu_list(3);
    let list = GpuList::from_raw(raw);
    assert_eq!(list.at(&mut lib, 3).err(), Some(Error(4)));
    assert_eq!(list.at(&mut lib, u32::MAX).err(), Some(Error(4)));
    assert_eq!(list.size(&mut lib), 3);
    assert!(list.at(&mut lib, 2).is_ok());
}

#[test]
fn a_display_list_can_be_cloned() {
    let mut lib = FakeAdlx::new();
    let raw = lib.add_object("IADLXDisplayList");
    assert!(lib.grant(raw));
    let list = DisplayList::from_raw(raw);
    let copy = list.clone(&mut lib);
    assert_eq!(copy.as_raw(), raw);
    assert_eq!(lib.refs(raw), 2);
    list.drop(&mut lib);
    assert_eq!(copy.size(&mut lib), 0);
    copy.drop(&mut lib);
    assert_eq!(lib.refs(raw), 0);
    assert_eq!(
        lib.calls(),
        &vec![Call::Acquire(raw), Call::Release(raw), Call::Size(raw), Call::Release(raw)]
    );
}

#[test]
fn dropping_what_a_pass_yielded_restores_the_counts() {
    let (mut lib, raw, gpus) = gpu_list(3);
    let list = GpuList::from_raw(raw);
    let held = list.at(&mut lib, 1).unwrap();
    let all = list.iter().collect(&mut lib);
    assert_eq!(all.len(), 3);
    assert_eq!(lib.refs(gpus[0]), 1);
    assert_eq!(lib.refs(gpus[1]), 2);
    assert_eq!(lib.refs(gpus[2]), 1);
    for gpu in all {
        gpu.drop(&mut lib);
    }
    assert_eq!(lib.refs(gpus[0]), 0);
    assert_eq!(lib.refs(gpus[1]), 1);
    assert_eq!(lib.refs(gpus[2]), 0);
    held.drop(&mut lib);
}

#[test]
fn a_pass_ends_at_the_first_element_that_is_not_handed_out() {
    let mut lib = FakeAdlx::new();
    let raw = lib.add_object("IADLXGPUList");
    let first = lib.add_object("IADLXGPU");
    let odd = lib.add_object("IADLXDisplay");
    let last = lib.add_object("IADLXGPU");
    assert!(lib.add_item(raw, first));
    assert!(lib.add_item(raw, odd));
    assert!(lib.add_item(raw, last));
    assert!(lib.grant(raw));
    let list = GpuList::from_raw(raw);
    let all = list.iter().collect(&mut lib);
    assert_eq!(all.len(), 1);
    assert_eq!(all[0].as_raw(), first);
    assert_eq!(lib.refs(first), 1);
    assert_eq!(lib.refs(odd), 0);
    assert_eq!(lib.refs(last), 0);
}
