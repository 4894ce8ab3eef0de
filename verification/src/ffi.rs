//! Plain values that cross the boundary to the foreign library: constants of
//! its headers, the slots of its function tables, and the cells that its
//! calls fill.

use vstd::prelude::*;

verus! {

pub const ADLX_VER_MAJOR: u16 = 1;

pub const ADLX_VER_MINOR: u16 = 4;

pub const ADLX_VER_RELEASE: u16 = 0;

pub const ADLX_VER_BUILD_NUM: u16 = 110;

/// File name of the shared library that exports the entry points.
pub const ADLX_DLL_NAME: &'static str = "amdadlx64.dll";

pub const ADLX_QUERY_FULL_VERSION_FUNCTION_NAME: &'static str = "ADLXQueryFullVersion";

pub const ADLX_QUERY_VERSION_FUNCTION_NAME: &'static str = "ADLXQueryVersion";

pub const ADLX_INIT_WITH_CALLER_ADL_FUNCTION_NAME: &'static str = "ADLXInitializeWithCallerAdl";

pub const ADLX_INIT_WITH_INCOMPATIBLE_DRIVER_FUNCTION_NAME: &'static str =
    "ADLXInitializeWithIncompatibleDriver";

pub const ADLX_INIT_FUNCTION_NAME: &'static str = "ADLXInitialize";

pub const ADLX_TERMINATE_FUNCTION_NAME: &'static str = "ADLXTerminate";

pub type ADLX_HG_TYPE = i32;

pub type ADLX_ASIC_FAMILY_TYPE = i32;

pub type ADLX_GPU_TYPE = i32;

pub type ADLX_PCI_BUS_TYPE = i32;

pub type ADLX_MGPU_MODE = i32;

pub type ADLX_WAIT_FOR_VERTICAL_REFRESH_MODE = i32;

/// A range of integer settings, as the foreign library reports it.
#[derive(Clone, Copy, Debug, PartialEq, Eq, Structural)]
pub struct ADLX_IntRange {
    pub minValue: i32,
    pub maxValue: i32,
    pub step: i32,
}

/// The number that four 16-bit version fields pack into, the major field in
/// the highest bits.
pub open spec fn full_version(major: u16, minor: u16, release: u16, build: u16) -> int {
    major as int * 0x1_0000_0000_0000 + minor as int * 0x1_0000_0000 + release as int * 0x1_0000
        + build as int
}

/// Packs four version fields into the one number that the initialize call
/// takes.
pub fn make_full_version(major: u16, minor: u16, release: u16, build: u16) -> (version: u64)
    ensures
        version == full_version(major, minor, release, build),
{
    let a: u64 = major as u64;
    let b: u64 = minor as u64;
    let c: u64 = release as u64;
    let d: u64 = build as u64;
    assert(((a << 48) | (b << 32) | (c << 16) | d) == a * 0x1_0000_0000_0000 + b * 0x1_0000_0000 + c
        * 0x1_0000 + d) by (bit_vector)
        requires
            a < 0x1_0000,
            b < 0x1_0000,
            c < 0x1_0000,
            d < 0x1_0000,
    ;
    (a << 48) | (b << 32) | (c << 16) | d
}

/// The version of the headers that this crate was written against, packed
/// for the initialize call.
pub fn header_version() -> (version: u64)
    ensures
        version == full_version(
            ADLX_VER_MAJOR,
            ADLX_VER_MINOR,
            ADLX_VER_RELEASE,
            ADLX_VER_BUILD_NUM,
        ),
{
    make_full_version(ADLX_VER_MAJOR, ADLX_VER_MINOR, ADLX_VER_RELEASE, ADLX_VER_BUILD_NUM)
}

/// One entry point that the shared library exports by name.
#[derive(Clone, Copy, Debug, PartialEq, Eq, Structural)]
pub enum EntryPoint {
    QueryFullVersion,
    QueryVersion,
    InitializeWithCallerAdl,
    InitializeWithIncompatibleDriver,
    Initialize,
    Terminate,
}

impl EntryPoint {
    /// Whether this entry point starts the library and hands out its root
    /// object: initialize, in any of its variants.
    pub open spec fn starts(self) -> bool {
        self == EntryPoint::Initialize || self == EntryPoint::InitializeWithCallerAdl || self
            == EntryPoint::InitializeWithIncompatibleDriver
    }

    /// The symbol under which the shared library exports this entry point.
    pub open spec fn symbol(self) -> Seq<char> {
        match self {
            EntryPoint::QueryFullVersion => ADLX_QUERY_FULL_VERSION_FUNCTION_NAME@,
            EntryPoint::QueryVersion => ADLX_QUERY_VERSION_FUNCTION_NAME@,
            EntryPoint::InitializeWithCallerAdl => ADLX_INIT_WITH_CALLER_ADL_FUNCTION_NAME@,
            EntryPoint::InitializeWithIncompatibleDriver =>
                ADLX_INIT_WITH_INCOMPATIBLE_DRIVER_FUNCTION_NAME@,
            EntryPoint::Initialize => ADLX_INIT_FUNCTION_NAME@,
            EntryPoint::Terminate => ADLX_TERMINATE_FUNCTION_NAME@,
        }
    }

    /// The symbol under which the shared library exports this entry point.
    pub fn symbol_name(&self) -> (name: &'static str)
        ensures
            name@ == self.symbol(),
    {
        match self {
            EntryPoint::QueryFullVersion => ADLX_QUERY_FULL_VERSION_FUNCTION_NAME,
            EntryPoint::QueryVersion => ADLX_QUERY_VERSION_FUNCTION_NAME,
            EntryPoint::InitializeWithCallerAdl => ADLX_INIT_WITH_CALLER_ADL_FUNCTION_NAME,
            EntryPoint::InitializeWithIncompatibleDriver =>
                ADLX_INIT_WITH_INCOMPATIBLE_DRIVER_FUNCTION_NAME,
            EntryPoint::Initialize => ADLX_INIT_FUNCTION_NAME,
            EntryPoint::Terminate => ADLX_TERMINATE_FUNCTION_NAME,
        }
    }
}

/// One slot of a foreign function table. The name gives the interface that
/// declares the slot, then the slot.
#[derive(Clone, Copy, Debug, PartialEq, Eq, Structural)]
pub enum Method {
    // IADLXSystem
    SystemGetHybridGraphicsType,
    SystemGetGpus,
    SystemGetDisplaysServices,
    SystemGet3DSettingsServices,
    SystemGetPerformanceMonitoringServices,
    // IADLXGPU
    GpuVendorId,
    GpuAsicFamilyType,
    GpuType,
    GpuIsExternal,
    GpuName,
    GpuDriverPath,
    GpuPnpString,
    GpuTotalVram,
    GpuVramType,
    GpuDeviceId,
    GpuRevisionId,
    GpuSubSystemId,
    GpuSubSystemVendorId,
    GpuUniqueId,
    // IADLXGPU1
    Gpu1PciBusType,
    Gpu1PciBusLaneWidth,
    Gpu1MultiGpuMode,
    Gpu1ProductName,
    // IADLXGPUList
    GpuListAt,
    GpuListAddBack,
    // IADLXDisplayList
    DisplayListAt,
    // IADLXGPUMetricsList
    GpuMetricsListAt,
    GpuMetricsListAddBack,
    // IADLXGPUMetrics
    GpuMetricsTimeStamp,
    GpuMetricsUsage,
    GpuMetricsClockSpeed,
    GpuMetricsVramClockSpeed,
    GpuMetricsPower,
    GpuMetricsTotalBoardPower,
    GpuMetricsVoltage,
    GpuMetricsVram,
    GpuMetricsFanSpeed,
    GpuMetricsTemperature,
    GpuMetricsIntakeTemperature,
    GpuMetricsHotspotTemperature,
    // IADLXGPUMetricsSupport
    SupportIsSupportedGpuUsage,
    SupportIsSupportedGpuClockSpeed,
    SupportIsSupportedGpuVramClockSpeed,
    SupportIsSupportedGpuTemperature,
    SupportIsSupportedGpuHotspotTemperature,
    SupportIsSupportedGpuPower,
    SupportIsSupportedGpuTotalBoardPower,
    SupportIsSupportedGpuFanSpeed,
    SupportIsSupportedGpuVram,
    SupportIsSupportedGpuVoltage,
    SupportIsSupportedGpuIntakeTemperature,
    SupportGetGpuUsageRange,
    SupportGetGpuClockSpeedRange,
    SupportGetGpuVramClockSpeedRange,
    SupportGetGpuTemperatureRange,
    SupportGetGpuHotspotTemperatureRange,
    SupportGetGpuPowerRange,
    SupportGetGpuFanSpeedRange,
    SupportGetGpuVramRange,
    SupportGetGpuVoltageRange,
    SupportGetGpuTotalBoardPowerRange,
    SupportGetGpuIntakeTemperatureRange,
    // IADLXPerformanceMonitoringServices
    PerformanceGetCurrentGpuMetrics,
    PerformanceGetSamplingIntervalRange,
    PerformanceSetSamplingInterval,
    PerformanceGetSamplingInterval,
    PerformanceGetMaxHistorySizeRange,
    PerformanceSetMaxHistorySize,
    PerformanceGetMaxHistorySize,
    PerformanceClearHistory,
    PerformanceGetCurrentHistorySize,
    PerformanceStartTracking,
    PerformanceStopTracking,
    PerformanceGetGpuMetricsHistory,
    PerformanceGetSupportedGpuMetrics,
    // IADLXDisplay
    DisplayGetGpu,
    // IADLXDisplayFreeSync
    FreeSyncIsSupported,
    FreeSyncIsEnabled,
    // IADLXDisplayServices
    DisplayServicesGetFreeSync,
    DisplayServicesGetDisplays,
    // IADLX3DSettingsServices
    SettingsGetWaitForVerticalRefresh,
    SettingsGetChill,
    SettingsGetFrameRateTargetControl,
    // IADLX3DChill
    ChillIsSupported,
    ChillIsEnabled,
    ChillGetFpsRange,
    ChillGetMinFps,
    ChillGetMaxFps,
    // IADLX3DFrameRateTargetControl
    FrameRateIsSupported,
    FrameRateIsEnabled,
    FrameRateGetFpsRange,
    FrameRateGetFps,
    // IADLX3DWaitForVerticalRefresh
    VerticalRefreshIsSupported,
    VerticalRefreshIsEnabled,
    VerticalRefreshGetMode,
    VerticalRefreshSetMode,
}

impl Method {
    /// The identity of the object that this slot hands out, for the slots
    /// that hand out an object.
    pub open spec fn yields(self) -> Option<Seq<char>> {
        match self {
            Method::SystemGetGpus => Some("IADLXGPUList"@),
            Method::SystemGetDisplaysServices => Some("IADLXDisplayServices"@),
            Method::SystemGet3DSettingsServices => Some("IADLX3DSettingsServices"@),
            Method::SystemGetPerformanceMonitoringServices => Some(
                "IADLXPerformanceMonitoringServices"@,
            ),
            Method::GpuListAt => Some("IADLXGPU"@),
            Method::DisplayListAt => Some("IADLXDisplay"@),
            Method::GpuMetricsListAt => Some("IADLXGPUMetrics"@),
            Method::PerformanceGetCurrentGpuMetrics => Some("IADLXGPUMetrics"@),
            Method::PerformanceGetGpuMetricsHistory => Some("IADLXGpuMetricsList"@),
            Method::PerformanceGetSupportedGpuMetrics => Some("IADLXGpuMetricsSupport"@),
            Method::DisplayGetGpu => Some("IADLXGPU"@),
            Method::DisplayServicesGetFreeSync => Some("IADLXDisplayFreeSync"@),
            Method::DisplayServicesGetDisplays => Some("IADLXDisplayList"@),
            Method::SettingsGetWaitForVerticalRefresh => Some("IADLX3DWaitForVerticalRefresh"@),
            Method::SettingsGetChill => Some("IADLX3DChill"@),
            Method::SettingsGetFrameRateTargetControl => Some("IADLX3DFrameRateTargetControl"@),
            _ => None,
        }
    }

    /// The identity of the object that this slot hands out, if it hands out
    /// one.
    pub fn result_interface(&self) -> (iid: Option<&'static str>)
        ensures
            iid matches Some(s) ==> self.yields() == Some(s@),
            iid is None ==> self.yields() is None,
    {
        match self {
            Method::SystemGetGpus => Some("IADLXGPUList"),
            Method::SystemGetDisplaysServices => Some("IADLXDisplayServices"),
            Method::SystemGet3DSettingsServices => Some("IADLX3DSettingsServices"),
            Method::SystemGetPerformanceMonitoringServices => Some(
                "IADLXPerformanceMonitoringServices",
            ),
            Method::GpuListAt => Some("IADLXGPU"),
            Method::DisplayListAt => Some("IADLXDisplay"),
            Method::GpuMetricsListAt => Some("IADLXGPUMetrics"),
            Method::PerformanceGetCurrentGpuMetrics => Some("IADLXGPUMetrics"),
            Method::PerformanceGetGpuMetricsHistory => Some("IADLXGpuMetricsList"),
            Method::PerformanceGetSupportedGpuMetrics => Some("IADLXGpuMetricsSupport"),
            Method::DisplayGetGpu => Some("IADLXGPU"),
            Method::DisplayServicesGetFreeSync => Some("IADLXDisplayFreeSync"),
            Method::DisplayServicesGetDisplays => Some("IADLXDisplayList"),
            Method::SettingsGetWaitForVerticalRefresh => Some("IADLX3DWaitForVerticalRefresh"),
            Method::SettingsGetChill => Some("IADLX3DChill"),
            Method::SettingsGetFrameRateTargetControl => Some("IADLX3DFrameRateTargetControl"),
            _ => None,
        }
    }

    /// Whether this slot hands out the address of a text.
    pub open spec fn yields_text(self) -> bool {
        match self {
            Method::GpuVendorId
            | Method::GpuName
            | Method::GpuDriverPath
            | Method::GpuPnpString
            | Method::GpuVramType
            | Method::GpuDeviceId
            | Method::GpuRevisionId
            | Method::GpuSubSystemId
            | Method::GpuSubSystemVendorId
            | Method::Gpu1ProductName => true,
            _ => false,
        }
    }

    /// Whether this slot hands out the address of a text.
    pub fn hands_out_text(&self) -> (yes: bool)
        ensures
            yes == self.yields_text(),
    {
        match self {
            Method::GpuVendorId
            | Method::GpuName
            | Method::GpuDriverPath
            | Method::GpuPnpString
            | Method::GpuVramType
            | Method::GpuDeviceId
            | Method::GpuRevisionId
            | Method::GpuSubSystemId
            | Method::GpuSubSystemVendorId
            | Method::Gpu1ProductName => true,
            _ => false,
        }
    }
}

/// What a call passes besides the object it is made on: at most one other
/// object and two integers. A field that the slot does not take is zero.
#[derive(Clone, Copy, Debug, PartialEq, Eq, Structural)]
pub struct Args {
    pub object: usize,
    pub first: i32,
    pub second: i32,
}

impl Args {
    /// No argument at all.
    pub open spec fn nothing() -> Args {
        Args { object: 0, first: 0, second: 0 }
    }

    /// One integer.
    pub open spec fn of_value(first: i32) -> Args {
        Args { object: 0, first, second: 0 }
    }

    /// One object.
    pub open spec fn of_object(object: usize) -> Args {
        Args { object, first: 0, second: 0 }
    }

    /// No argument at all.
    pub fn none() -> (args: Args)
        ensures
            args == Args::nothing(),
    {
        Args { object: 0, first: 0, second: 0 }
    }

    /// One integer.
    pub fn value(first: i32) -> (args: Args)
        ensures
            args == Args::of_value(first),
    {
        Args { object: 0, first, second: 0 }
    }

    /// One object.
    pub fn object(object: usize) -> (args: Args)
        ensures
            args == Args::of_object(object),
    {
        Args { object, first: 0, second: 0 }
    }
}

/// The cells that a call writes its result to, one per type of result. A
/// call fills the cell of its own type and leaves the others alone; after a
/// failed call no cell holds anything of meaning.
#[derive(Clone, Copy, Debug, PartialEq, Eq, Structural)]
pub struct Out {
    /// A signed 32-bit integer, or a value of an enumeration.
    pub int32: i32,
    /// An unsigned 32-bit integer.
    pub uint32: u32,
    /// A signed 64-bit integer.
    pub int64: i64,
    /// An unsigned 64-bit integer.
    pub uint64: u64,
    /// A boolean, as one byte: zero is false.
    pub flag: u8,
    /// A double, as the 64 bits of its IEEE 754 form.
    pub double: u64,
    /// The address of an object or of a text.
    pub ptr: usize,
    /// A range of settings.
    pub range: ADLX_IntRange,
    /// The lower end of a pair of bounds.
    pub min: i32,
    /// The upper end of a pair of bounds.
    pub max: i32,
}

impl Out {
    /// Cells as they are before a call: all zero.
    pub fn zeroed() -> (out: Out)
        ensures
            out == Out::zero(),
    {
        Out {
            int32: 0,
            uint32: 0,
            int64: 0,
            uint64: 0,
            flag: 0,
            double: 0,
            ptr: 0,
            range: ADLX_IntRange { minValue: 0, maxValue: 0, step: 0 },
            min: 0,
            max: 0,
        }
    }

    /// Cells as they are before a call: all zero.
    pub open spec fn zero() -> Out {
        Out {
            int32: 0,
            uint32: 0,
            int64: 0,
            uint64: 0,
            flag: 0,
            double: 0,
            ptr: 0,
            range: ADLX_IntRange { minValue: 0, maxValue: 0, step: 0 },
            min: 0,
            max: 0,
        }
    }
}

/// What comes back from a call: its status and the cells it may have filled.
#[derive(Clone, Copy, Debug, PartialEq, Eq, Structural)]
pub struct Reply {
    pub status: i32,
    pub out: Out,
}

} // verus!
