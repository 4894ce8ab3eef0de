use adlx::fake::{Call, FakeAdlx};
use adlx::ffi::{ADLX_IntRange, Args, Method, Out, Reply};
use adlx::{
    Display, DisplayFreeSync, DisplayServices, Error, Gpu, Gpu1, GpuMetrics, GpuMetricsSupport,
    Interface, PerformanceMonitoringServices, System, ThreeDChill, ThreeDFrameRateTargetControl,
    ThreeDSettingsServices, ThreeDWaitForVerticalRefresh,
};

fn object(lib: &mut FakeAdlx, iid: &str) -> usize {
    let raw = lib.add_object(iid);
    assert_ne!(raw, 0);
    assert!(lib.grant(raw));
    raw
}

fn set(lib: &mut FakeAdlx, raw: usize, method: Method, fill: fn(&mut Out)) {
    let mut out = Out::zeroed();
    fill(&mut out);
    assert!(lib.set_reply(raw, method, Args::none(), Reply { status: 0, out }));
}

fn fail(lib: &mut FakeAdlx, raw: usize, method: Method, status: i32, fill: fn(&mut Out)) {
    let mut out = Out::zeroed();
    fill(&mut out);
    assert!(lib.set_reply(raw, method, Args::none(), Reply { status, out }));
}

#[test]
fn gpu_properties() {
    let mut lib = FakeAdlx::new();
    let raw = object(&mut lib, "IADLXGPU");
    assert_ne!(lib.set_text(raw, Method::GpuName, "AMD Radeon RX 7900 XTX"), 0);
    assert_ne!(lib.set_text(raw, Method::GpuVendorId, "1002"), 0);
    assert_ne!(lib.set_text(raw, Method::GpuDriverPath, "C:\\drivers"), 0);
    assert_ne!(lib.set_text(raw, Method::GpuPnpString, "PCI\\VEN_1002"), 0);
    assert_ne!(lib.set_text(raw, Method::GpuVramType, "GDDR6"), 0);
    assert_ne!(lib.set_text(raw, Method::GpuDeviceId, "744C"), 0);
    assert_ne!(lib.set_text(raw, Method::GpuRevisionId, "C8"), 0);
    assert_ne!(lib.set_text(raw, Method::GpuSubSystemId, "0E3B"), 0);
    assert_ne!(lib.set_text(raw, Method::GpuSubSystemVendorId, "1DA2"), 0);
    set(&mut lib, raw, Method::GpuTotalVram, |out| out.uint32 = 24560);
    set(&mut lib, raw, Method::GpuUniqueId, |out| out.int32 = -3);
    set(&mut lib, raw, Method::GpuAsicFamilyType, |out| out.int32 = 1);
    set(&mut lib, raw, Method::GpuType, |out| out.int32 = 2);
    set(&mut lib, raw, Method::GpuIsExternal, |out| out.flag = 1);

    let gpu = Gpu::from_raw(raw);
    assert_eq!(gpu.name(&mut lib), Ok(String::from("AMD Radeon RX 7900 XTX")));
    assert_eq!(gpu.vendor_id(&mut lib), Ok(String::from("1002")));
    assert_eq!(gpu.driver_path(&mut lib), Ok(String::from("C:\\drivers")));
    assert_eq!(gpu.pnp_string(&mut lib), Ok(String::from("PCI\\VEN_1002")));
    assert_eq!(gpu.vram_type(&mut lib), Ok(String::from("GDDR6")));
    assert_eq!(gpu.device_id(&mut lib), Ok(String::from("744C")));
    assert_eq!(gpu.revision_id(&mut lib), Ok(String::from("C8")));
    assert_eq!(gpu.sub_system_id(&mut lib), Ok(String::from("0E3B")));
    assert_eq!(gpu.sub_system_vendor_id(&mut lib), Ok(String::from("1DA2")));
    assert_eq!(gpu.total_vram(&mut lib), Ok(24560));
    assert_eq!(gpu.unique_id(&mut lib), Ok(-3));
    assert_eq!(gpu.asic_family_type(&mut lib), Ok(1));
    assert_eq!(gpu.type_(&mut lib), Ok(2));
    assert_eq!(gpu.is_external(&mut lib), Ok(true));
    assert_eq!(lib.refs(raw), 1);
}

#[test]
fn a_failed_call_gives_its_status_whatever_the_cell_holds() {
    let mut lib = FakeAdlx::new();
    let raw = object(&mut lib, "IADLXGPU");
    fail(&mut lib, raw, Method::GpuTotalVram, 12, |out| out.uint32 = 777);
    fail(&mut lib, raw, Method::GpuIsExternal, 3, |out| out.flag = 1);
    fail(&mut lib, raw, Method::GpuName, 10, |out| out.ptr = 0xBAD);
    let gpu = Gpu::from_raw(raw);
    assert_eq!(gpu.total_vram(&mut lib), Err(Error(12)));
    assert_eq!(gpu.is_external(&mut lib), Err(Error(3)));
    assert_eq!(gpu.name(&mut lib), Err(Error(10)));
}

#[test]
fn a_call_without_an_answer_is_not_supported() {
    let mut lib = FakeAdlx::new();
    let raw = object(&mut lib, "IADLXGPU");
    let gpu = Gpu::from_raw(raw);
    assert_eq!(gpu.name(&mut lib), Err(Error(12)));
    assert_eq!(gpu.unique_id(&mut lib), Err(Error(12)));
}

#[test]
fn a_later_answer_replaces_an_earlier_one() {
    let mut lib = FakeAdlx::new();
    let raw = object(&mut lib, "IADLXGPU");
    set(&mut lib, raw, Method::GpuUniqueId, |out| out.int32 = 1);
    set(&mut lib, raw, Method::GpuUniqueId, |out| out.int32 = 2);
    assert_eq!(Gpu::from_raw(raw).unique_id(&mut lib), Ok(2));
}

#[test]
fn any_byte_but_zero_is_true() {
    let mut lib = FakeAdlx::new();
    let raw = object(&mut lib, "IADLXGPU");
    let gpu = Gpu::from_raw(raw);
    set(&mut lib, raw, Method::GpuIsExternal, |out| out.flag = 0);
    assert_eq!(gpu.is_external(&mut lib), Ok(false));
    set(&mut lib, raw, Method::GpuIsExternal, |out| out.flag = 1);
    assert_eq!(gpu.is_external(&mut lib), Ok(true));
    set(&mut lib, raw, Method::GpuIsExternal, |out| out.flag = 255);
    assert_eq!(gpu.is_external(&mut lib), Ok(true));
}

#[test]
fn base_operations_through_a_derived_handle() {
    let mut lib = FakeAdlx::new();
    let raw = object(&mut lib, "IADLXGPU1");
    assert!(lib.add_interface(raw, "IADLXGPU"));
    assert_ne!(lib.set_text(raw, Method::GpuName, "Radeon"), 0);
    assert_ne!(lib.set_text(raw, Method::Gpu1ProductName, "Radeon Pro"), 0);
    set(&mut lib, raw, Method::GpuTotalVram, |out| out.uint32 = 8176);
    set(&mut lib, raw, Method::Gpu1PciBusType, |out| out.int32 = 4);
    set(&mut lib, raw, Method::Gpu1PciBusLaneWidth, |out| out.uint32 = 16);
    set(&mut lib, raw, Method::Gpu1MultiGpuMode, |out| out.int32 = 0);

    let derived = Gpu1::from_raw(raw);
    let direct = Gpu::from_raw(raw);
    assert_eq!(derived.as_raw(), direct.as_raw());
    let base: &Gpu = &derived;
    assert_eq!(base.as_raw(), direct.as_raw());
    assert_eq!(derived.name(&mut lib), direct.name(&mut lib));
    assert_eq!(derived.name(&mut lib), Ok(String::from("Radeon")));
    assert_eq!(derived.total_vram(&mut lib), direct.total_vram(&mut lib));
    assert_eq!(derived.unique_id(&mut lib), direct.unique_id(&mut lib));
    assert_eq!(derived.product_name(&mut lib), Ok(String::from("Radeon Pro")));
    assert_eq!(derived.pci_bus_type(&mut lib), Ok(4));
    assert_eq!(derived.pci_bus_lane_width(&mut lib), Ok(16));
    assert_eq!(derived.multi_gpu_mode(&mut lib), Ok(0));
}

#[test]
fn metrics_of_a_sample() {
    let mut lib = FakeAdlx::new();
    let raw = object(&mut lib, "IADLXGPUMetrics");
    set(&mut lib, raw, Method::GpuMetricsTimeStamp, |out| out.int64 = 1_700_000_000_123);
    set(&mut lib, raw, Method::GpuMetricsUsage, |out| out.double = 42.5f64.to_bits());
    set(&mut lib, raw, Method::GpuMetricsClockSpeed, |out| out.int32 = 2500);
    set(&mut lib, raw, Method::GpuMetricsVramClockSpeed, |out| out.int32 = 1250);
    set(&mut lib, raw, Method::GpuMetricsPower, |out| out.double = 300.25f64.to_bits());
    set(&mut lib, raw, Method::GpuMetricsTotalBoardPower, |out| out.double = 355.0f64.to_bits());
    set(&mut lib, raw, Method::GpuMetricsVoltage, |out| out.int32 = 900);
    set(&mut lib, raw, Method::GpuMetricsVram, |out| out.int32 = 4096);
    set(&mut lib, raw, Method::GpuMetricsFanSpeed, |out| out.int32 = 1500);
    set(&mut lib, raw, Method::GpuMetricsTemperature, |out| out.double = 65.0f64.to_bits());
    set(&mut lib, raw, Method::GpuMetricsIntakeTemperature, |out| out.double = 30.5f64.to_bits());
    set(&mut lib, raw, Method::GpuMetricsHotspotTemperature, |out| out.double = 88.0f64.to_bits());

    let metrics = GpuMetrics::from_raw(raw);
    assert_eq!(metrics.time_stamp(&mut lib), Ok(1_700_000_000_123));
    assert_eq!(metrics.usage(&mut lib).map(f64::from_bits), Ok(42.5));
    assert_eq!(metrics.clock_speed(&mut lib), Ok(2500));
    assert_eq!(metrics.vram_clock_speed(&mut lib), Ok(1250));
    assert_eq!(metrics.power(&mut lib).map(f64::from_bits), Ok(300.25));
    assert_eq!(metrics.total_board_power(&mut lib).map(f64::from_bits), Ok(355.0));
    assert_eq!(metrics.voltage(&mut lib), Ok(900));
    assert_eq!(metrics.vram(&mut lib), Ok(4096));
    assert_eq!(metrics.fan_speed(&mut lib), Ok(1500));
    assert_eq!(metrics.temperature(&mut lib).map(f64::from_bits), Ok(65.0));
    assert_eq!(metrics.intake_temperature(&mut lib).map(f64::from_bits), Ok(30.5));
    assert_eq!(metrics.hotspot_temperature(&mut lib).map(f64::from_bits), Ok(88.0));
}

#[test]
fn supported_metrics_and_their_ranges() {
    let mut lib = FakeAdlx::new();
    let raw = object(&mut lib, "IADLXGpuMetricsSupport");
    let support = GpuMetricsSupport::from_raw(raw);
    set(&mut lib, raw, Method::SupportIsSupportedGpuUsage, |out| out.flag = 1);
    set(&mut lib, raw, Method::SupportIsSupportedGpuClockSpeed, |out| out.flag = 1);
    set(&mut lib, raw, Method::SupportIsSupportedGpuVramClockSpeed, |out| out.flag = 0);
    set(&mut lib, raw, Method::SupportIsSupportedGpuTemperature, |out| out.flag = 1);
    set(&mut lib, raw, Method::SupportIsSupportedGpuHotspotTemperature, |out| out.flag = 0);
    set(&mut lib, raw, Method::SupportIsSupportedGpuPower, |out| out.flag = 1);
    set(&mut lib, raw, Method::SupportIsSupportedGpuTotalBoardPower, |out| out.flag = 0);
    set(&mut lib, raw, Method::SupportIsSupportedGpuFanSpeed, |out| out.flag = 1);
    set(&mut lib, raw, Method::SupportIsSupportedGpuVram, |out| out.flag = 1);
    set(&mut lib, raw, Method::SupportIsSupportedGpuVoltage, |out| out.flag = 0);
    fail(&mut lib, raw, Method::SupportIsSupportedGpuIntakeTemperature, 12, |out| out.flag = 1);
    assert_eq!(support.is_supported_gpu_usage(&mut lib), Ok(true));
    assert_eq!(support.is_supported_gpu_clock_speed(&mut lib), Ok(true));
    assert_eq!(support.is_supported_gpu_vram_clock_speed(&mut lib), Ok(false));
    assert_eq!(support.is_supported_gpu_temperature(&mut lib), Ok(true));
    assert_eq!(support.is_supported_gpu_hotspot_temperature(&mut lib), Ok(false));
    assert_eq!(support.is_supported_gpu_power(&mut lib), Ok(true));
    assert_eq!(support.is_supported_gpu_total_board_power(&mut lib), Ok(false));
    assert_eq!(support.is_supported_gpu_fan_speed(&mut lib), Ok(true));
    assert_eq!(support.is_supported_gpu_vram(&mut lib), Ok(true));
    assert_eq!(support.is_supported_gpu_voltage(&mut lib), Ok(false));
    assert_eq!(support.is_supported_gpu_intake_temperature(&mut lib), Err(Error(12)));

    let bounds = |out: &mut Out| {
        out.min = 0;
        out.max = 100;
    };
    set(&mut lib, raw, Method::SupportGetGpuUsageRange, bounds);
    set(&mut lib, raw, Method::SupportGetGpuClockSpeedRange, |out| {
        out.min = 500;
        out.max = 3000;
    });
    set(&mut lib, raw, Method::SupportGetGpuVramClockSpeedRange, bounds);
    set(&mut lib, raw, Method::SupportGetGpuTemperatureRange, |out| {
        out.min = -20;
        out.max = 110;
    });
    set(&mut lib, raw, Method::SupportGetGpuHotspotTemperatureRange, bounds);
    set(&mut lib, raw, Method::SupportGetGpuPowerRange, bounds);
    set(&mut lib, raw, Method::SupportGetGpuFanSpeedRange, bounds);
    set(&mut lib, raw, Method::SupportGetGpuVramRange, bounds);
    set(&mut lib, raw, Method::SupportGetGpuVoltageRange, bounds);
    set(&mut lib, raw, Method::SupportGetGpuTotalBoardPowerRange, bounds);
    fail(&mut lib, raw, Method::SupportGetGpuIntakeTemperatureRange, 12, bounds);
    assert_eq!(support.gpu_usage_range(&mut lib), Ok(0..100));
    assert_eq!(support.gpu_clock_speed_range(&mut lib), Ok(500..3000));
    assert_eq!(support.gpu_vram_clock_speed_range(&mut lib), Ok(0..100));
    assert_eq!(support.gpu_temperature_range(&mut lib), Ok(-20..110));
    assert_eq!(support.gpu_hotspot_temperature_range(&mut lib), Ok(0..100));
    assert_eq!(support.gpu_power_range(&mut lib), Ok(0..100));
    assert_eq!(support.gpu_fan_speed_range(&mut lib), Ok(0..100));
    assert_eq!(support.gpu_vran_range(&mut lib), Ok(0..100));
    assert_eq!(support.gpu_voltage_range(&mut lib), Ok(0..100));
    assert_eq!(support.gpu_total_board_power_range(&mut lib), Ok(0..100));
    assert_eq!(support.gpu_intake_temperature_range(&mut lib), Err(Error(12)));
}

#[test]
fn performance_monitoring() {
    let mut lib = FakeAdlx::new();
    let raw = object(&mut lib, "IADLXPerformanceMonitoringServices");
    let gpu_raw = object(&mut lib, "IADLXGPU");
    let sample = lib.add_object("IADLXGPUMetrics");
    let history = lib.add_object("IADLXGpuMetricsList");
    let support = lib.add_object("IADLXGpuMetricsSupport");
    let mut services = PerformanceMonitoringServices::from_raw(raw);
    let gpu = Gpu::from_raw(gpu_raw);

    let mut out = Out::zeroed();
    out.ptr = sample;
    assert!(lib.set_reply(
        raw,
        Method::PerformanceGetCurrentGpuMetrics,
        Args::object(gpu_raw),
        Reply { status: 0, out }
    ));
    out.ptr = history;
    assert!(lib.set_reply(
        raw,
        Method::PerformanceGetGpuMetricsHistory,
        Args { object: gpu_raw, first: 0, second: 1000 },
        Reply { status: 0, out }
    ));
    out.ptr = support;
    assert!(lib.set_reply(
        raw,
        Method::PerformanceGetSupportedGpuMetrics,
        Args::object(gpu_raw),
        Reply { status: 0, out }
    ));
    let metrics = services.current_gpu_metrics(&mut lib, &gpu).unwrap();
    assert_eq!(metrics.as_raw(), sample);
    assert_eq!(lib.refs(sample), 1);
    let list = services.gpu_metrics_history(&mut lib, &gpu, 0, 1000).unwrap();
    assert_eq!(list.as_raw(), history);
    assert_eq!(lib.refs(history), 1);
    assert_eq!(services.gpu_metrics_history(&mut lib, &gpu, 0, 2000).err(), Some(Error(12)));
    let supported = services.supported_gpu_metrics(&mut lib, &gpu).unwrap();
    assert_eq!(supported.as_raw(), support);
    metrics.drop(&mut lib);
    assert_eq!(lib.refs(sample), 0);

    let range = ADLX_IntRange { minValue: 100, maxValue: 5000, step: 100 };
    let mut out = Out::zeroed();
    out.range = range;
    assert!(lib.set_reply(
        raw,
        Method::PerformanceGetSamplingIntervalRange,
        Args::none(),
        Reply { status: 0, out }
    ));
    assert!(lib.set_reply(
        raw,
        Method::PerformanceGetMaxHistorySizeRange,
        Args::none(),
        Reply { status: 0, out }
    ));
    assert_eq!(services.sampling_interval_range(&mut lib), Ok(range));
    assert_eq!(services.max_performance_metrics_history_range(&mut lib), Ok(range));

    set(&mut lib, raw, Method::PerformanceGetSamplingInterval, |out| out.int32 = 1000);
    set(&mut lib, raw, Method::PerformanceGetMaxHistorySize, |out| out.int32 = 100);
    set(&mut lib, raw, Method::PerformanceGetCurrentHistorySize, |out| out.int32 = 7);
    assert_eq!(services.sampling_interval(&mut lib), Ok(1000));
    assert_eq!(services.max_performance_metrics_history_size(&mut lib), Ok(100));
    assert_eq!(services.current_performance_metrics_history_size_in_sec(&mut lib), Ok(7));

    let done = Reply { status: 0, out: Out::zeroed() };
    let refused = Reply { status: 4, out: Out::zeroed() };
    assert!(lib.set_reply(raw, Method::PerformanceSetSamplingInterval, Args::value(500), done));
    assert!(lib.set_reply(raw, Method::PerformanceSetSamplingInterval, Args::value(1), refused));
    assert!(lib.set_reply(raw, Method::PerformanceSetMaxHistorySize, Args::value(60), done));
    assert!(lib.set_reply(raw, Method::PerformanceClearHistory, Args::none(), done));
    assert!(lib.set_reply(raw, Method::PerformanceStartTracking, Args::none(), done));
    assert!(lib.set_reply(raw, Method::PerformanceStopTracking, Args::none(), refused));
    assert_eq!(services.set_sampling_interval(&mut lib, 500), Ok(()));
    assert_eq!(services.set_sampling_interval(&mut lib, 1), Err(Error(4)));
    assert_eq!(services.set_max_performance_metrics_history_size(&mut lib, 60), Ok(()));
    assert_eq!(services.clear_performance_metrics_history(&mut lib), Ok(()));
    assert_eq!(services.start_performance_tracking(&mut lib), Ok(()));
    assert_eq!(services.stop_performance_tracking(&mut lib), Err(Error(4)));
    assert_eq!(services.as_raw(), raw);
}

#[test]
fn objects_come_with_a_reference_of_their_own() {
    let mut lib = FakeAdlx::new();
    let root = object(&mut lib, "IADLXSystem");
    let gpus = lib.add_object("IADLXGPUList");
    let displays = lib.add_object("IADLXDisplayServices");
    let settings = lib.add_object("IADLX3DSettingsServices");
    let monitoring = lib.add_object("IADLXPerformanceMonitoringServices");
    for (method, target) in [
        (Method::SystemGetGpus, gpus),
        (Method::SystemGetDisplaysServices, displays),
        (Method::SystemGet3DSettingsServices, settings),
        (Method::SystemGetPerformanceMonitoringServices, monitoring),
    ] {
        let mut out = Out::zeroed();
        out.ptr = target;
        assert!(lib.set_reply(root, method, Args::none(), Reply { status: 0, out }));
    }
    set(&mut lib, root, Method::SystemGetHybridGraphicsType, |out| out.int32 = 1);

    let system = System::from_raw(root);
    assert_eq!(system.as_raw(), root);
    assert_eq!(system.hybrid_graphics_type(&mut lib), Ok(1));
    let list = system.gpus(&mut lib).unwrap();
    assert_eq!(list.as_raw(), gpus);
    assert_eq!(lib.refs(gpus), 1);
    let again = system.gpus(&mut lib).unwrap();
    assert_eq!(lib.refs(gpus), 2);
    again.drop(&mut lib);
    list.drop(&mut lib);
    assert_eq!(lib.refs(gpus), 0);
    assert_eq!(system.get_displays_services(&mut lib).unwrap().as_raw(), displays);
    assert_eq!(system.get_3d_settings_services(&mut lib).unwrap().as_raw(), settings);
    assert_eq!(system.performance_monitoring_services(&mut lib).unwrap().as_raw(), monitoring);
    assert_eq!(lib.refs(root), 1);
}

#[test]
fn an_object_of_the_wrong_interface_is_not_wrapped() {
    let mut lib = FakeAdlx::new();
    let root = object(&mut lib, "IADLXSystem");
    let display = lib.add_object("IADLXDisplay");
    let mut out = Out::zeroed();
    out.ptr = display;
    assert!(lib.set_reply(root, Method::SystemGetGpus, Args::none(), Reply { status: 0, out }));
    let system = System::from_raw(root);
    assert_eq!(system.gpus(&mut lib).err(), Some(Error(10)));
    assert_eq!(lib.refs(display), 0);
    out.ptr = 0;
    assert!(lib.set_reply(root, Method::SystemGetGpus, Args::none(), Reply { status: 0, out }));
    assert_eq!(system.gpus(&mut lib).err(), Some(Error(10)));
}

#[test]
fn a_failed_call_hands_out_no_object() {
    let mut lib = FakeAdlx::new();
    let root = object(&mut lib, "IADLXSystem");
    let gpus = lib.add_object("IADLXGPUList");
    let mut out = Out::zeroed();
    out.ptr = gpus;
    assert!(lib.set_reply(root, Method::SystemGetGpus, Args::none(), Reply { status: 7, out }));
    let system = System::from_raw(root);
    assert_eq!(system.gpus(&mut lib).err(), Some(Error(7)));
    assert_eq!(lib.refs(gpus), 0);
}

#[test]
fn the_root_object_can_be_cast() {
    let mut lib = FakeAdlx::new();
    let root = object(&mut lib, "IADLXSystem");
    assert!(lib.add_interface(root, "IADLXSystem1"));
    let system = System::from_raw(root);
    let system1 = system.cast::<adlx::System1, FakeAdlx>(&mut lib).unwrap();
    assert_eq!(system1.as_raw(), root);
    assert_eq!(lib.refs(root), 2);
    assert_eq!(system.cast::<Gpu, FakeAdlx>(&mut lib).err(), Some(Error(6)));
    system1.drop(&mut lib);
    assert_eq!(lib.refs(root), 1);
}

#[test]
fn displays() {
    let mut lib = FakeAdlx::new();
    let services_raw = object(&mut lib, "IADLXDisplayServices");
    let display_raw = object(&mut lib, "IADLXDisplay");
    let list = lib.add_object("IADLXDisplayList");
    let free_sync = lib.add_object("IADLXDisplayFreeSync");
    let gpu = lib.add_object("IADLXGPU");
    let mut out = Out::zeroed();
    out.ptr = list;
    assert!(lib.set_reply(
        services_raw,
        Method::DisplayServicesGetDisplays,
        Args::none(),
        Reply { status: 0, out }
    ));
    out.ptr = free_sync;
    assert!(lib.set_reply(
        services_raw,
        Method::DisplayServicesGetFreeSync,
        Args::object(display_raw),
        Reply { status: 0, out }
    ));
    out.ptr = gpu;
    assert!(lib.set_reply(display_raw, Method::DisplayGetGpu, Args::none(), Reply { status: 0, out }));
    set(&mut lib, free_sync, Method::FreeSyncIsSupported, |out| out.flag = 1);
    set(&mut lib, free_sync, Method::FreeSyncIsEnabled, |out| out.flag = 0);

    let services = DisplayServices::from_raw(services_raw);
    let display = Display::from_raw(display_raw);
    assert_eq!(services.get_displays(&mut lib).unwrap().as_raw(), list);
    let sync: DisplayFreeSync = services.get_free_sync(&mut lib, &display).unwrap();
    assert_eq!(sync.as_raw(), free_sync);
    assert_eq!(sync.is_supported(&mut lib), Ok(true));
    assert_eq!(sync.is_enabled(&mut lib), Ok(false));
    assert_eq!(display.get_gpu(&mut lib).unwrap().as_raw(), gpu);
    assert_eq!(lib.refs(gpu), 1);
}

#[test]
fn three_d_settings() {
    let mut lib = FakeAdlx::new();
    let raw = object(&mut lib, "IADLX3DSettingsServices");
    let gpu_raw = object(&mut lib, "IADLXGPU");
    let chill_raw = lib.add_object("IADLX3DChill");
    let target_raw = lib.add_object("IADLX3DFrameRateTargetControl");
    let refresh_raw = lib.add_object("IADLX3DWaitForVerticalRefresh");
    for (method, target) in [
        (Method::SettingsGetChill, chill_raw),
        (Method::SettingsGetFrameRateTargetControl, target_raw),
        (Method::SettingsGetWaitForVerticalRefresh, refresh_raw),
    ] {
        let mut out = Out::zeroed();
        out.ptr = target;
        assert!(lib.set_reply(raw, method, Args::object(gpu_raw), Reply { status: 0, out }));
    }
    let services = ThreeDSettingsServices::from_raw(raw);
    let gpu = Gpu::from_raw(gpu_raw);
    let chill: ThreeDChill = services.get_chill(&mut lib, &gpu).unwrap();
    let target: ThreeDFrameRateTargetControl =
        services.get_frame_rate_target_control(&mut lib, &gpu).unwrap();
    let mut refresh: ThreeDWaitForVerticalRefresh =
        services.get_wait_for_vertical_refresh(&mut lib, &gpu).unwrap();
    assert_eq!(chill.as_raw(), chill_raw);
    assert_eq!(target.as_raw(), target_raw);
    assert_eq!(refresh.as_raw(), refresh_raw);

    let range = ADLX_IntRange { minValue: 30, maxValue: 300, step: 1 };
    let mut out = Out::zeroed();
    out.range = range;
    assert!(lib.set_reply(chill_raw, Method::ChillGetFpsRange, Args::none(), Reply { status: 0, out }));
    assert!(lib.set_reply(
        target_raw,
        Method::FrameRateGetFpsRange,
        Args::none(),
        Reply { status: 0, out }
    ));
    set(&mut lib, chill_raw, Method::ChillIsSupported, |out| out.flag = 1);
    set(&mut lib, chill_raw, Method::ChillIsEnabled, |out| out.flag = 1);
    set(&mut lib, chill_raw, Method::ChillGetMinFps, |out| out.int32 = 60);
    set(&mut lib, chill_raw, Method::ChillGetMaxFps, |out| out.int32 = 144);
    assert_eq!(chill.is_supported(&mut lib), Ok(true));
    assert_eq!(chill.is_enabled(&mut lib), Ok(true));
    assert_eq!(chill.get_fps_range(&mut lib), Ok(range));
    assert_eq!(chill.get_min_fps(&mut lib), Ok(60));
    assert_eq!(chill.get_max_fps(&mut lib), Ok(144));

    set(&mut lib, target_raw, Method::FrameRateIsSupported, |out| out.flag = 1);
    set(&mut lib, target_raw, Method::FrameRateIsEnabled, |out| out.flag = 0);
    set(&mut lib, target_raw, Method::FrameRateGetFps, |out| out.int32 = 120);
    assert_eq!(target.is_supported(&mut lib), Ok(true));
    assert_eq!(target.is_enabled(&mut lib), Ok(false));
    assert_eq!(target.get_fps_range(&mut lib), Ok(range));
    assert_eq!(target.get_fps(&mut lib), Ok(120));

    set(&mut lib, refresh_raw, Method::VerticalRefreshIsSupported, |out| out.flag = 1);
    set(&mut lib, refresh_raw, Method::VerticalRefreshIsEnabled, |out| out.flag = 1);
    set(&mut lib, refresh_raw, Method::VerticalRefreshGetMode, |out| out.int32 = 3);
    assert!(lib.set_reply(
        refresh_raw,
        Method::VerticalRefreshSetMode,
        Args::value(2),
        Reply { status: 0, out: Out::zeroed() }
    ));
    assert_eq!(refresh.is_supported(&mut lib), Ok(true));
    assert_eq!(refresh.is_enabled(&mut lib), Ok(true));
    assert_eq!(refresh.get_mode(&mut lib), Ok(3));
    assert_eq!(refresh.set_mode(&mut lib, 2), Ok(()));
    assert_eq!(refresh.set_mode(&mut lib, 9), Err(Error(12)));
}

#[test]
fn short_names_are_the_same_types() {
    let chill: adlx::Chill = ThreeDChill::from_raw(1);
    let target: adlx::FrameRateTargetControl = ThreeDFrameRateTargetControl::from_raw(2);
    let services: adlx::DisplaysServices = DisplayServices::from_raw(3);
    assert_eq!(chill.as_raw(), 1);
    assert_eq!(target.as_raw(), 2);
    assert_eq!(services.as_raw(), 3);
}

#[test]
fn a_getter_calls_its_slot_once() {
    let mut lib = FakeAdlx::new();
    let raw = object(&mut lib, "IADLXGPU");
    set(&mut lib, raw, Method::GpuUniqueId, |out| out.int32 = 9);
    let address = lib.set_text(raw, Method::GpuName, "Radeon");
    let gpu = Gpu::from_raw(raw);
    assert_eq!(gpu.unique_id(&mut lib), Ok(9));
    assert_eq!(gpu.name(&mut lib), Ok(String::from("Radeon")));
    assert_eq!(gpu.vendor_id(&mut lib), Err(Error(12)));
    assert_eq!(
        lib.calls(),
        &vec![
            Call::Invoke(raw, Method::GpuUniqueId),
            Call::Invoke(raw, Method::GpuName),
            Call::ReadText(address),
            Call::Invoke(raw, Method::GpuVendorId),
        ]
    );
}
