//! Handles of the metrics of a GPU: one sample, a list of samples, and what
//! a GPU can report at all.

use vstd::prelude::*;
use crate::call::{
    bounds_of, call_bounds, call_double, call_flag, call_int, call_long, double_of, flag_of, int_of,
    long_of,
};
use crate::ffi::{Args, Method};
use crate::interface::{cast_done, query_interface, Interface, InterfaceImpl};
use crate::library::{took, Adlx, Call, REF_LIMIT};
use crate::list::{append, at_done, element_at, List};
use crate::result::{outcome, Error};

verus! {

/// The handle of one sample of the metrics of a GPU.
#[derive(Debug)]
pub struct GpuMetrics(InterfaceImpl);

impl Interface for GpuMetrics {
    const IID: &'static str = "IADLXGPUMetrics";

    open spec fn iid() -> Seq<char> {
        "IADLXGPUMetrics"@
    }

    fn interface_id() -> (iid: &'static str) {
        Self::IID
    }

    closed spec fn raw(&self) -> usize {
        self.0.raw()
    }

    fn from_raw(raw: usize) -> (handle: Self) {
        GpuMetrics(InterfaceImpl::from_raw(raw))
    }

    fn as_raw(&self) -> (raw: usize) {
        self.0.as_raw()
    }
}

impl GpuMetrics {
    /// Asks the object whether it also answers to the interface `I`. An
    /// error is the status of the call. See [`query_interface`].
    pub fn cast<I: Interface, L: Adlx>(&self, lib: &mut L) -> (r: Result<I, Error>)
        requires
            old(lib).inv(),
            old(lib).world().live(self.raw()),
            old(lib).world().refs(self.raw()) < REF_LIMIT,
        ensures
            final(lib).inv(),
            cast_done(old(lib), final(lib), self.raw(), r),
    {
        query_interface(lib, self.as_raw())
    }

    /// Takes one more reference to the object and returns the handle that
    /// owns it.
    pub fn clone<L: Adlx>(&self, lib: &mut L) -> (copy: Self)
        requires
            old(lib).inv(),
            old(lib).world().live(self.raw()),
            old(lib).world().refs(self.raw()) < REF_LIMIT,
        ensures
            final(lib).inv(),
            copy.raw() == self.raw(),
            final(lib).world() == old(lib).world().acquire(self.raw()),
            took(old(lib), final(lib), seq![Call::Acquire(self.raw())]),
    {
        GpuMetrics(self.0.clone(lib))
    }

    /// Gives the reference of this handle up.
    pub fn drop<L: Adlx>(self, lib: &mut L)
        requires
            old(lib).inv(),
            old(lib).world().live(self.raw()),
        ensures
            final(lib).inv(),
            final(lib).world() == old(lib).world().release(self.raw()),
            took(old(lib), final(lib), seq![Call::Release(self.raw())]),
    {
        self.0.drop(lib)
    }

    /// The time of the sample, in ms.
    ///
    /// Calls `TimeStamp` of `IADLXGPUMetrics`.
    pub fn time_stamp<L: Adlx>(&self, lib: &mut L) -> (r: Result<i64, Error>)
        requires
            old(lib).inv(),
            old(lib).world().live(self.raw()),
        ensures
            final(lib).inv(),
            took(old(lib), final(lib), seq![Call::Invoke(self.raw(), Method::GpuMetricsTimeStamp)]),
            final(lib).world() == old(lib).world(),
            r == long_of(old(lib).answer(self.raw(), Method::GpuMetricsTimeStamp, Args::nothing())),
    {
        call_long(lib, self.as_raw(), Method::GpuMetricsTimeStamp)
    }

    /// How busy the GPU is, in percent.
    ///
    /// The result is the 64 bits of the number in its IEEE 754 form.
    ///
    /// Calls `GPUUsage` of `IADLXGPUMetrics`.
    pub fn usage<L: Adlx>(&self, lib: &mut L) -> (r: Result<u64, Error>)
        requires
            old(lib).inv(),
            old(lib).world().live(self.raw()),
        ensures
            final(lib).inv(),
            took(old(lib), final(lib), seq![Call::Invoke(self.raw(), Method::GpuMetricsUsage)]),
            final(lib).world() == old(lib).world(),
            r == double_of(old(lib).answer(self.raw(), Method::GpuMetricsUsage, Args::nothing())),
    {
        call_double(lib, self.as_raw(), Method::GpuMetricsUsage)
    }

    /// The clock speed of the GPU, in MHz.
    ///
    /// Calls `GPUClockSpeed` of `IADLXGPUMetrics`.
    pub fn clock_speed<L: Adlx>(&self, lib: &mut L) -> (r: Result<i32, Error>)
        requires
            old(lib).inv(),
            old(lib).world().live(self.raw()),
        ensures
            final(lib).inv(),
            took(
                old(lib),
                final(lib),
                seq![Call::Invoke(self.raw(), Method::GpuMetricsClockSpeed)],
            ),
            final(lib).world() == old(lib).world(),
            r == int_of(old(lib).answer(self.raw(), Method::GpuMetricsClockSpeed, Args::nothing())),
    {
        call_int(lib, self.as_raw(), Method::GpuMetricsClockSpeed)
    }

    /// The clock speed of the video memory, in MHz.
    ///
    /// Calls `GPUVRAMClockSpeed` of `IADLXGPUMetrics`.
    pub fn vram_clock_speed<L: Adlx>(&self, lib: &mut L) -> (r: Result<i32, Error>)
        requires
            old(lib).inv(),
            old(lib).world().live(self.raw()),
        ensures
            final(lib).inv(),
            took(
                old(lib),
                final(lib),
                seq![Call::Invoke(self.raw(), Method::GpuMetricsVramClockSpeed)],
            ),
            final(lib).world() == old(lib).world(),
            r == int_of(
                old(lib).answer(self.raw(), Method::GpuMetricsVramClockSpeed, Args::nothing()),
            ),
    {
        call_int(lib, self.as_raw(), Method::GpuMetricsVramClockSpeed)
    }

    /// The power that the GPU draws, in W.
    ///
    /// The result is the 64 bits of the number in its IEEE 754 form.
    ///
    /// Calls `GPUPower` of `IADLXGPUMetrics`.
    pub fn power<L: Adlx>(&self, lib: &mut L) -> (r: Result<u64, Error>)
        requires
            old(lib).inv(),
            old(lib).world().live(self.raw()),
        ensures
            final(lib).inv(),
            took(old(lib), final(lib), seq![Call::Invoke(self.raw(), Method::GpuMetricsPower)]),
            final(lib).world() == old(lib).world(),
            r == double_of(old(lib).answer(self.raw(), Method::GpuMetricsPower, Args::nothing())),
    {
        call_double(lib, self.as_raw(), Method::GpuMetricsPower)
    }

    /// The power that the whole board draws, in W.
    ///
    /// The result is the 64 bits of the number in its IEEE 754 form.
    ///
    /// Calls `GPUTotalBoardPower` of `IADLXGPUMetrics`.
    pub fn total_board_power<L: Adlx>(&self, lib: &mut L) -> (r: Result<u64, Error>)
        requires
            old(lib).inv(),
            old(lib).world().live(self.raw()),
        ensures
            final(lib).inv(),
            took(
                old(lib),
                final(lib),
                seq![Call::Invoke(self.raw(), Method::GpuMetricsTotalBoardPower)],
            ),
            final(lib).world() == old(lib).world(),
            r == double_of(
                old(lib).answer(self.raw(), Method::GpuMetricsTotalBoardPower, Args::nothing()),
            ),
    {
        call_double(lib, self.as_raw(), Method::GpuMetricsTotalBoardPower)
    }

    /// The voltage of the GPU, in mV.
    ///
    /// Calls `GPUVoltage` of `IADLXGPUMetrics`.
    pub fn voltage<L: Adlx>(&self, lib: &mut L) -> (r: Result<i32, Error>)
        requires
            old(lib).inv(),
            old(lib).world().live(self.raw()),
        ensures
            final(lib).inv(),
            took(old(lib), final(lib), seq![Call::Invoke(self.raw(), Method::GpuMetricsVoltage)]),
            final(lib).world() == old(lib).world(),
            r == int_of(old(lib).answer(self.raw(), Method::GpuMetricsVoltage, Args::nothing())),
    {
        call_int(lib, self.as_raw(), Method::GpuMetricsVoltage)
    }

    /// The video memory in use, in MB.
    ///
    /// Calls `GPUVRAM` of `IADLXGPUMetrics`.
    pub fn vram<L: Adlx>(&self, lib: &mut L) -> (r: Result<i32, Error>)
        requires
            old(lib).inv(),
            old(lib).world().live(self.raw()),
        ensures
            final(lib).inv(),
            took(old(lib), final(lib), seq![Call::Invoke(self.raw(), Method::GpuMetricsVram)]),
            final(lib).world() == old(lib).world(),
            r == int_of(old(lib).answer(self.raw(), Method::GpuMetricsVram, Args::nothing())),
    {
        call_int(lib, self.as_raw(), Method::GpuMetricsVram)
    }

    /// The speed of the fan, in RPM.
    ///
    /// Calls `GPUFanSpeed` of `IADLXGPUMetrics`.
    pub fn fan_speed<L: Adlx>(&self, lib: &mut L) -> (r: Result<i32, Error>)
        requires
            old(lib).inv(),
            old(lib).world().live(self.raw()),
        ensures
            final(lib).inv(),
            took(old(lib), final(lib), seq![Call::Invoke(self.raw(), Method::GpuMetricsFanSpeed)]),
            final(lib).world() == old(lib).world(),
            r == int_of(old(lib).answer(self.raw(), Method::GpuMetricsFanSpeed, Args::nothing())),
    {
        call_int(lib, self.as_raw(), Method::GpuMetricsFanSpeed)
    }

    /// The temperature of the GPU, in degrees Celsius.
    ///
    /// The result is the 64 bits of the number in its IEEE 754 form.
    ///
    /// Calls `GPUTemperature` of `IADLXGPUMetrics`.
    pub fn temperature<L: Adlx>(&self, lib: &mut L) -> (r: Result<u64, Error>)
        requires
            old(lib).inv(),
            old(lib).world().live(self.raw()),
        ensures
            final(lib).inv(),
            took(
                old(lib),
                final(lib),
                seq![Call::Invoke(self.raw(), Method::GpuMetricsTemperature)],
            ),
            final(lib).world() == old(lib).world(),
            r == double_of(
                old(lib).answer(self.raw(), Method::GpuMetricsTemperature, Args::nothing()),
            ),
    {
        call_double(lib, self.as_raw(), Method::GpuMetricsTemperature)
    }

    /// The temperature at the intake, in degrees Celsius.
    ///
    /// The result is the 64 bits of the number in its IEEE 754 form.
    ///
    /// Calls `GPUIntakeTemperature` of `IADLXGPUMetrics`.
    pub fn intake_temperature<L: Adlx>(&self, lib: &mut L) -> (r: Result<u64, Error>)
        requires
            old(lib).inv(),
            old(lib).world().live(self.raw()),
        ensures
            final(lib).inv(),
            took(
                old(lib),
                final(lib),
                seq![Call::Invoke(self.raw(), Method::GpuMetricsIntakeTemperature)],
            ),
            final(lib).world() == old(lib).world(),
            r == double_of(
                old(lib).answer(self.raw(), Method::GpuMetricsIntakeTemperature, Args::nothing()),
            ),
    {
        call_double(lib, self.as_raw(), Method::GpuMetricsIntakeTemperature)
    }

    /// The temperature of the hottest spot, in degrees Celsius.
    ///
    /// The result is the 64 bits of the number in its IEEE 754 form.
    ///
    /// Calls `GPUHotspotTemperature` of `IADLXGPUMetrics`.
    pub fn hotspot_temperature<L: Adlx>(&self, lib: &mut L) -> (r: Result<u64, Error>)
        requires
            old(lib).inv(),
            old(lib).world().live(self.raw()),
        ensures
            final(lib).inv(),
            took(
                old(lib),
                final(lib),
                seq![Call::Invoke(self.raw(), Method::GpuMetricsHotspotTemperature)],
            ),
            final(lib).world() == old(lib).world(),
            r == double_of(
                old(lib).answer(self.raw(), Method::GpuMetricsHotspotTemperature, Args::nothing()),
            ),
    {
        call_double(lib, self.as_raw(), Method::GpuMetricsHotspotTemperature)
    }
}

/// The handle of a list of samples.
#[derive(Debug)]
pub struct GpuMetricsList(List);

impl Interface for GpuMetricsList {
    const IID: &'static str = "IADLXGpuMetricsList";

    open spec fn iid() -> Seq<char> {
        "IADLXGpuMetricsList"@
    }

    fn interface_id() -> (iid: &'static str) {
        Self::IID
    }

    closed spec fn raw(&self) -> usize {
        self.0.raw()
    }

    fn from_raw(raw: usize) -> (handle: Self) {
        GpuMetricsList(List::from_raw(raw))
    }

    fn as_raw(&self) -> (raw: usize) {
        self.0.as_raw()
    }
}

impl GpuMetricsList {
    /// Asks the object whether it also answers to the interface `I`. An
    /// error is the status of the call. See [`query_interface`].
    pub fn cast<I: Interface, L: Adlx>(&self, lib: &mut L) -> (r: Result<I, Error>)
        requires
            old(lib).inv(),
            old(lib).world().live(self.raw()),
            old(lib).world().refs(self.raw()) < REF_LIMIT,
        ensures
            final(lib).inv(),
            cast_done(old(lib), final(lib), self.raw(), r),
    {
        query_interface(lib, self.as_raw())
    }

    /// Takes one more reference to the object and returns the handle that
    /// owns it.
    pub fn clone<L: Adlx>(&self, lib: &mut L) -> (copy: Self)
        requires
            old(lib).inv(),
            old(lib).world().live(self.raw()),
            old(lib).world().refs(self.raw()) < REF_LIMIT,
        ensures
            final(lib).inv(),
            copy.raw() == self.raw(),
            final(lib).world() == old(lib).world().acquire(self.raw()),
            took(old(lib), final(lib), seq![Call::Acquire(self.raw())]),
    {
        GpuMetricsList(self.0.clone(lib))
    }

    /// Gives the reference of this handle up.
    pub fn drop<L: Adlx>(self, lib: &mut L)
        requires
            old(lib).inv(),
            old(lib).world().live(self.raw()),
        ensures
            final(lib).inv(),
            final(lib).world() == old(lib).world().release(self.raw()),
            took(old(lib), final(lib), seq![Call::Release(self.raw())]),
    {
        self.0.drop(lib)
    }

    /// The sample at `location`, with a reference of its own. An index at or
    /// past the size of the list gives an error, which is the status of the
    /// call.
    ///
    /// Calls `At_GPUMetricsList` of `IADLXGPUMetricsList`.
    pub fn at<L: Adlx>(&self, lib: &mut L, location: u32) -> (r: Result<GpuMetrics, Error>)
        requires
            old(lib).inv(),
            old(lib).world().live(self.raw()),
            old(lib).world().has_room_at(self.raw(), location),
        ensures
            final(lib).inv(),
            at_done(old(lib), final(lib), self.raw(), Method::GpuMetricsListAt, location, r),
    {
        element_at(lib, self.as_raw(), Method::GpuMetricsListAt, location)
    }

    /// Appends a sample to the list. The result is the status with which
    /// the library answers the call. The handle is used up either way; on
    /// success its reference is now the list's.
    ///
    /// Calls `Add_Back_GPUMetricsList` of `IADLXGPUMetricsList`.
    pub fn add_back<L: Adlx>(&self, lib: &mut L, gpu_metrics: GpuMetrics) -> (r: Result<(), Error>)
        requires
            old(lib).inv(),
            old(lib).world().live(self.raw()),
            old(lib).world().live(gpu_metrics.raw()),
        ensures
            final(lib).inv(),
            r == outcome(
                old(lib).add_back_answer(
                    self.raw(),
                    Method::GpuMetricsListAddBack,
                    gpu_metrics.raw(),
                ),
                (),
            ),
            took(old(lib), final(lib), seq![Call::AddBack(self.raw(), gpu_metrics.raw())]),
            r is Ok ==> final(lib).world() == old(lib).world().give(self.raw(), gpu_metrics.raw()),
            r is Err ==> final(lib).world() == old(lib).world(),
    {
        append(lib, self.as_raw(), Method::GpuMetricsListAddBack, gpu_metrics)
    }
}

/// The handle of what tells which metrics a GPU can report, and in which
/// ranges.
#[derive(Debug)]
pub struct GpuMetricsSupport(InterfaceImpl);

impl Interface for GpuMetricsSupport {
    const IID: &'static str = "IADLXGpuMetricsSupport";

    open spec fn iid() -> Seq<char> {
        "IADLXGpuMetricsSupport"@
    }

    fn interface_id() -> (iid: &'static str) {
        Self::IID
    }

    closed spec fn raw(&self) -> usize {
        self.0.raw()
    }

    fn from_raw(raw: usize) -> (handle: Self) {
        GpuMetricsSupport(InterfaceImpl::from_raw(raw))
    }

    fn as_raw(&self) -> (raw: usize) {
        self.0.as_raw()
    }
}

impl GpuMetricsSupport {
    /// Asks the object whether it also answers to the interface `I`. An
    /// error is the status of the call. See [`query_interface`].
    pub fn cast<I: Interface, L: Adlx>(&self, lib: &mut L) -> (r: Result<I, Error>)
        requires
            old(lib).inv(),
            old(lib).world().live(self.raw()),
            old(lib).world().refs(self.raw()) < REF_LIMIT,
        ensures
            final(lib).inv(),
            cast_done(old(lib), final(lib), self.raw(), r),
    {
        query_interface(lib, self.as_raw())
    }

    /// Takes one more reference to the object and returns the handle that
    /// owns it.
    pub fn clone<L: Adlx>(&self, lib: &mut L) -> (copy: Self)
        requires
            old(lib).inv(),
            old(lib).world().live(self.raw()),
            old(lib).world().refs(self.raw()) < REF_LIMIT,
        ensures
            final(lib).inv(),
            copy.raw() == self.raw(),
            final(lib).world() == old(lib).world().acquire(self.raw()),
            took(old(lib), final(lib), seq![Call::Acquire(self.raw())]),
    {
        GpuMetricsSupport(self.0.clone(lib))
    }

    /// Gives the reference of this handle up.
    pub fn drop<L: Adlx>(self, lib: &mut L)
        requires
            old(lib).inv(),
            old(lib).world().live(self.raw()),
        ensures
            final(lib).inv(),
            final(lib).world() == old(lib).world().release(self.raw()),
            took(old(lib), final(lib), seq![Call::Release(self.raw())]),
    {
        self.0.drop(lib)
    }

    /// Whether the GPU reports its usage.
    ///
    /// Calls `IsSupportedGPUUsage` of `IADLXGPUMetricsSupport`.
    pub fn is_supported_gpu_usage<L: Adlx>(&self, lib: &mut L) -> (r: Result<bool, Error>)
        requires
            old(lib).inv(),
            old(lib).world().live(self.raw()),
        ensures
            final(lib).inv(),
            took(
                old(lib),
                final(lib),
                seq![Call::Invoke(self.raw(), Method::SupportIsSupportedGpuUsage)],
            ),
            final(lib).world() == old(lib).world(),
            r == flag_of(
                old(lib).answer(self.raw(), Method::SupportIsSupportedGpuUsage, Args::nothing()),
            ),
    {
        call_flag(lib, self.as_raw(), Method::SupportIsSupportedGpuUsage)
    }

    /// Whether the GPU reports its clock speed.
    ///
    /// Calls `IsSupportedGPUClockSpeed` of `IADLXGPUMetricsSupport`.
    pub fn is_supported_gpu_clock_speed<L: Adlx>(&self, lib: &mut L) -> (r: Result<bool, Error>)
        requires
            old(lib).inv(),
            old(lib).world().live(self.raw()),
        ensures
            final(lib).inv(),
            took(
                old(lib),
                final(lib),
                seq![Call::Invoke(self.raw(), Method::SupportIsSupportedGpuClockSpeed)],
            ),
            final(lib).world() == old(lib).world(),
            r == flag_of(
                old(lib).answer(
                    self.raw(), Method::SupportIsSupportedGpuClockSpeed, Args::nothing(),
                ),
            ),
    {
        call_flag(lib, self.as_raw(), Method::SupportIsSupportedGpuClockSpeed)
    }

    /// Whether the GPU reports its clock speed of the video memory.
    ///
    /// Calls `IsSupportedGPUVRAMClockSpeed` of `IADLXGPUMetricsSupport`.
    pub fn is_supported_gpu_vram_clock_speed<L: Adlx>(
        &self,
        lib: &mut L,
    ) -> (r: Result<bool, Error>)
        requires
            old(lib).inv(),
            old(lib).world().live(self.raw()),
        ensures
            final(lib).inv(),
            took(
                old(lib),
                final(lib),
                seq![Call::Invoke(self.raw(), Method::SupportIsSupportedGpuVramClockSpeed)],
            ),
            final(lib).world() == old(lib).world(),
            r == flag_of(
                old(lib).answer(
                    self.raw(), Method::SupportIsSupportedGpuVramClockSpeed, Args::nothing(),
                ),
            ),
    {
        call_flag(lib, self.as_raw(), Method::SupportIsSupportedGpuVramClockSpeed)
    }

    /// Whether the GPU reports its temperature.
    ///
    /// Calls `IsSupportedGPUTemperature` of `IADLXGPUMetricsSupport`.
    pub fn is_supported_gpu_temperature<L: Adlx>(&self, lib: &mut L) -> (r: Result<bool, Error>)
        requires
            old(lib).inv(),
            old(lib).world().live(self.raw()),
        ensures
            final(lib).inv(),
            took(
                old(lib),
                final(lib),
                seq![Call::Invoke(self.raw(), Method::SupportIsSupportedGpuTemperature)],
            ),
            final(lib).world() == old(lib).world(),
            r == flag_of(
                old(lib).answer(
                    self.raw(), Method::SupportIsSupportedGpuTemperature, Args::nothing(),
                ),
            ),
    {
        call_flag(lib, self.as_raw(), Method::SupportIsSupportedGpuTemperature)
    }

    /// Whether the GPU reports its temperature of the hottest spot.
    ///
    /// Calls `IsSupportedGPUHotspotTemperature` of `IADLXGPUMetricsSupport`.
    pub fn is_supported_gpu_hotspot_temperature<L: Adlx>(
        &self,
        lib: &mut L,
    ) -> (r: Result<bool, Error>)
        requires
            old(lib).inv(),
            old(lib).world().live(self.raw()),
        ensures
            final(lib).inv(),
            took(
                old(lib),
                final(lib),
                seq![Call::Invoke(self.raw(), Method::SupportIsSupportedGpuHotspotTemperature)],
            ),
            final(lib).world() == old(lib).world(),
            r == flag_of(
                old(lib).answer(
                    self.raw(), Method::SupportIsSupportedGpuHotspotTemperature, Args::nothing(),
                ),
            ),
    {
        call_flag(lib, self.as_raw(), Method::SupportIsSupportedGpuHotspotTemperature)
    }

    /// Whether the GPU reports its power.
    ///
    /// Calls `IsSupportedGPUPower` of `IADLXGPUMetricsSupport`.
    pub fn is_supported_gpu_power<L: Adlx>(&self, lib: &mut L) -> (r: Result<bool, Error>)
        requires
            old(lib).inv(),
            old(lib).world().live(self.raw()),
        ensures
            final(lib).inv(),
            took(
                old(lib),
                final(lib),
                seq![Call::Invoke(self.raw(), Method::SupportIsSupportedGpuPower)],
            ),
            final(lib).world() == old(lib).world(),
            r == flag_of(
                old(lib).answer(self.raw(), Method::SupportIsSupportedGpuPower, Args::nothing()),
            ),
    {
        call_flag(lib, self.as_raw(), Method::SupportIsSupportedGpuPower)
    }

    /// Whether the GPU reports its power of the whole board.
    ///
    /// Calls `IsSupportedGPUTotalBoardPower` of `IADLXGPUMetricsSupport`.
    pub fn is_supported_gpu_total_board_power<L: Adlx>(
        &self,
        lib: &mut L,
    ) -> (r: Result<bool, Error>)
        requires
            old(lib).inv(),
            old(lib).world().live(self.raw()),
        ensures
            final(lib).inv(),
            took(
                old(lib),
                final(lib),
                seq![Call::Invoke(self.raw(), Method::SupportIsSupportedGpuTotalBoardPower)],
            ),
            final(lib).world() == old(lib).world(),
            r == flag_of(
                old(lib).answer(
                    self.raw(), Method::SupportIsSupportedGpuTotalBoardPower, Args::nothing(),
                ),
            ),
    {
        call_flag(lib, self.as_raw(), Method::SupportIsSupportedGpuTotalBoardPower)
    }

    /// Whether the GPU reports its fan speed.
    ///
    /// Calls `IsSupportedGPUFanSpeed` of `IADLXGPUMetricsSupport`.
    pub fn is_supported_gpu_fan_speed<L: Adlx>(&self, lib: &mut L) -> (r: Result<bool, Error>)
        requires
            old(lib).inv(),
            old(lib).world().live(self.raw()),
        ensures
            final(lib).inv(),
            took(
                old(lib),
                final(lib),
                seq![Call::Invoke(self.raw(), Method::SupportIsSupportedGpuFanSpeed)],
            ),
            final(lib).world() == old(lib).world(),
            r == flag_of(
                old(lib).answer(self.raw(), Method::SupportIsSupportedGpuFanSpeed, Args::nothing()),
            ),
    {
        call_flag(lib, self.as_raw(), Method::SupportIsSupportedGpuFanSpeed)
    }

    /// Whether the GPU reports its video memory in use.
    ///
    /// Calls `IsSupportedGPUVRAM` of `IADLXGPUMetricsSupport`.
    pub fn is_supported_gpu_vram<L: Adlx>(&self, lib: &mut L) -> (r: Result<bool, Error>)
        requires
            old(lib).inv(),
            old(lib).world().live(self.raw()),
        ensures
            final(lib).inv(),
            took(
                old(lib),
                final(lib),
                seq![Call::Invoke(self.raw(), Method::SupportIsSupportedGpuVram)],
            ),
            final(lib).world() == old(lib).world(),
            r == flag_of(
                old(lib).answer(self.raw(), Method::SupportIsSupportedGpuVram, Args::nothing()),
            ),
    {
        call_flag(lib, self.as_raw(), Method::SupportIsSupportedGpuVram)
    }

    /// Whether the GPU reports its voltage.
    ///
    /// Calls `IsSupportedGPUVoltage` of `IADLXGPUMetricsSupport`.
    pub fn is_supported_gpu_voltage<L: Adlx>(&self, lib: &mut L) -> (r: Result<bool, Error>)
        requires
            old(lib).inv(),
            old(lib).world().live(self.raw()),
        ensures
            final(lib).inv(),
            took(
                old(lib),
                final(lib),
                seq![Call::Invoke(self.raw(), Method::SupportIsSupportedGpuVoltage)],
            ),
            final(lib).world() == old(lib).world(),
            r == flag_of(
                old(lib).answer(self.raw(), Method::SupportIsSupportedGpuVoltage, Args::nothing()),
            ),
    {
        call_flag(lib, self.as_raw(), Method::SupportIsSupportedGpuVoltage)
    }

    /// Whether the GPU reports its temperature at the intake.
    ///
    /// Calls `IsSupportedGPUIntakeTemperature` of `IADLXGPUMetricsSupport`.
    pub fn is_supported_gpu_intake_temperature<L: Adlx>(
        &self,
        lib: &mut L,
    ) -> (r: Result<bool, Error>)
        requires
            old(lib).inv(),
            old(lib).world().live(self.raw()),
        ensures
            final(lib).inv(),
            took(
                old(lib),
                final(lib),
                seq![Call::Invoke(self.raw(), Method::SupportIsSupportedGpuIntakeTemperature)],
            ),
            final(lib).world() == old(lib).world(),
            r == flag_of(
                old(lib).answer(
                    self.raw(), Method::SupportIsSupportedGpuIntakeTemperature, Args::nothing(),
                ),
            ),
    {
        call_flag(lib, self.as_raw(), Method::SupportIsSupportedGpuIntakeTemperature)
    }

    /// The range that the usage of the GPU lies in.
    ///
    /// Calls `GetGPUUsageRange` of `IADLXGPUMetricsSupport`.
    pub fn gpu_usage_range<L: Adlx>(&self, lib: &mut L) -> (r: Result<core::ops::Range<i32>, Error>)
        requires
            old(lib).inv(),
            old(lib).world().live(self.raw()),
        ensures
            final(lib).inv(),
            took(
                old(lib),
                final(lib),
                seq![Call::Invoke(self.raw(), Method::SupportGetGpuUsageRange)],
            ),
            final(lib).world() == old(lib).world(),
            r == bounds_of(
                old(lib).answer(self.raw(), Method::SupportGetGpuUsageRange, Args::nothing()),
            ),
    {
        call_bounds(lib, self.as_raw(), Method::SupportGetGpuUsageRange)
    }

    /// The range that the clock speed of the GPU lies in.
    ///
    /// Calls `GetGPUClockSpeedRange` of `IADLXGPUMetricsSupport`.
    pub fn gpu_clock_speed_range<L: Adlx>(
        &self,
        lib: &mut L,
    ) -> (r: Result<core::ops::Range<i32>, Error>)
        requires
            old(lib).inv(),
            old(lib).world().live(self.raw()),
        ensures
            final(lib).inv(),
            took(
                old(lib),
                final(lib),
                seq![Call::Invoke(self.raw(), Method::SupportGetGpuClockSpeedRange)],
            ),
            final(lib).world() == old(lib).world(),
            r == bounds_of(
                old(lib).answer(self.raw(), Method::SupportGetGpuClockSpeedRange, Args::nothing()),
            ),
    {
        call_bounds(lib, self.as_raw(), Method::SupportGetGpuClockSpeedRange)
    }

    /// The range that the clock speed of the video memory of the GPU lies in.
    ///
    /// Calls `GetGPUVRAMClockSpeedRange` of `IADLXGPUMetricsSupport`.
    pub fn gpu_vram_clock_speed_range<L: Adlx>(
        &self,
        lib: &mut L,
    ) -> (r: Result<core::ops::Range<i32>, Error>)
        requires
            old(lib).inv(),
            old(lib).world().live(self.raw()),
        ensures
            final(lib).inv(),
            took(
                old(lib),
                final(lib),
                seq![Call::Invoke(self.raw(), Method::SupportGetGpuVramClockSpeedRange)],
            ),
            final(lib).world() == old(lib).world(),
            r == bounds_of(
                old(lib).answer(
                    self.raw(), Method::SupportGetGpuVramClockSpeedRange, Args::nothing(),
                ),
            ),
    {
        call_bounds(lib, self.as_raw(), Method::SupportGetGpuVramClockSpeedRange)
    }

    /// The range that the temperature of the GPU lies in.
    ///
    /// Calls `GetGPUTemperatureRange` of `IADLXGPUMetricsSupport`.
    pub fn gpu_temperature_range<L: Adlx>(
        &self,
        lib: &mut L,
    ) -> (r: Result<core::ops::Range<i32>, Error>)
        requires
            old(lib).inv(),
            old(lib).world().live(self.raw()),
        ensures
            final(lib).inv(),
            took(
                old(lib),
                final(lib),
                seq![Call::Invoke(self.raw(), Method::SupportGetGpuTemperatureRange)],
            ),
            final(lib).world() == old(lib).world(),
            r == bounds_of(
                old(lib).answer(self.raw(), Method::SupportGetGpuTemperatureRange, Args::nothing()),
            ),
    {
        call_bounds(lib, self.as_raw(), Method::SupportGetGpuTemperatureRange)
    }

    /// The range that the temperature of the hottest spot of the GPU lies in.
    ///
    /// Calls `GetGPUHotspotTemperatureRange` of `IADLXGPUMetricsSupport`.
    pub fn gpu_hotspot_temperature_range<L: Adlx>(
        &self,
        lib: &mut L,
    ) -> (r: Result<core::ops::Range<i32>, Error>)
        requires
            old(lib).inv(),
            old(lib).world().live(self.raw()),
        ensures
            final(lib).inv(),
            took(
                old(lib),
                final(lib),
                seq![Call::Invoke(self.raw(), Method::SupportGetGpuHotspotTemperatureRange)],
            ),
            final(lib).world() == old(lib).world(),
            r == bounds_of(
                old(lib).answer(
                    self.raw(), Method::SupportGetGpuHotspotTemperatureRange, Args::nothing(),
                ),
            ),
    {
        call_bounds(lib, self.as_raw(), Method::SupportGetGpuHotspotTemperatureRange)
    }

    /// The range that the power of the GPU lies in.
    ///
    /// Calls `GetGPUPowerRange` of `IADLXGPUMetricsSupport`.
    pub fn gpu_power_range<L: Adlx>(&self, lib: &mut L) -> (r: Result<core::ops::Range<i32>, Error>)
        requires
            old(lib).inv(),
            old(lib).world().live(self.raw()),
        ensures
            final(lib).inv(),
            took(
                old(lib),
                final(lib),
                seq![Call::Invoke(self.raw(), Method::SupportGetGpuPowerRange)],
            ),
            final(lib).world() == old(lib).world(),
            r == bounds_of(
                old(lib).answer(self.raw(), Method::SupportGetGpuPowerRange, Args::nothing()),
            ),
    {
        call_bounds(lib, self.as_raw(), Method::SupportGetGpuPowerRange)
    }

    /// The range that the fan speed of the GPU lies in.
    ///
    /// Calls `GetGPUFanSpeedRange` of `IADLXGPUMetricsSupport`.
    pub fn gpu_fan_speed_range<L: Adlx>(
        &self,
        lib: &mut L,
    ) -> (r: Result<core::ops::Range<i32>, Error>)
        requires
            old(lib).inv(),
            old(lib).world().live(self.raw()),
        ensures
            final(lib).inv(),
            took(
                old(lib),
                final(lib),
                seq![Call::Invoke(self.raw(), Method::SupportGetGpuFanSpeedRange)],
            ),
            final(lib).world() == old(lib).world(),
            r == bounds_of(
                old(lib).answer(self.raw(), Method::SupportGetGpuFanSpeedRange, Args::nothing()),
            ),
    {
        call_bounds(lib, self.as_raw(), Method::SupportGetGpuFanSpeedRange)
    }

    /// The range that the video memory in use of the GPU lies in.
    ///
    /// Calls `GetGPUVRAMRange` of `IADLXGPUMetricsSupport`.
    pub fn gpu_vran_range<L: Adlx>(&self, lib: &mut L) -> (r: Result<core::ops::Range<i32>, Error>)
        requires
            old(lib).inv(),
            old(lib).world().live(self.raw()),
        ensures
            final(lib).inv(),
            took(
                old(lib),
                final(lib),
                seq![Call::Invoke(self.raw(), Method::SupportGetGpuVramRange)],
            ),
            final(lib).world() == old(lib).world(),
            r == bounds_of(
                old(lib).answer(self.raw(), Method::SupportGetGpuVramRange, Args::nothing()),
            ),
    {
        call_bounds(lib, self.as_raw(), Method::SupportGetGpuVramRange)
    }

    /// The range that the voltage of the GPU lies in.
    ///
    /// Calls `GetGPUVoltageRange` of `IADLXGPUMetricsSupport`.
    pub fn gpu_voltage_range<L: Adlx>(
        &self,
        lib: &mut L,
    ) -> (r: Result<core::ops::Range<i32>, Error>)
        requires
            old(lib).inv(),
            old(lib).world().live(self.raw()),
        ensures
            final(lib).inv(),
            took(
                old(lib),
                final(lib),
                seq![Call::Invoke(self.raw(), Method::SupportGetGpuVoltageRange)],
            ),
            final(lib).world() == old(lib).world(),
            r == bounds_of(
                old(lib).answer(self.raw(), Method::SupportGetGpuVoltageRange, Args::nothing()),
            ),
    {
        call_bounds(lib, self.as_raw(), Method::SupportGetGpuVoltageRange)
    }

    /// The range that the power of the whole board of the GPU lies in.
    ///
    /// Calls `GetGPUTotalBoardPowerRange` of `IADLXGPUMetricsSupport`.
    pub fn gpu_total_board_power_range<L: Adlx>(
        &self,
        lib: &mut L,
    ) -> (r: Result<core::ops::Range<i32>, Error>)
        requires
            old(lib).inv(),
            old(lib).world().live(self.raw()),
        ensures
            final(lib).inv(),
            took(
                old(lib),
                final(lib),
                seq![Call::Invoke(self.raw(), Method::SupportGetGpuTotalBoardPowerRange)],
            ),
            final(lib).world() == old(lib).world(),
            r == bounds_of(
                old(lib).answer(
                    self.raw(), Method::SupportGetGpuTotalBoardPowerRange, Args::nothing(),
                ),
            ),
    {
        call_bounds(lib, self.as_raw(), Method::SupportGetGpuTotalBoardPowerRange)
    }

    /// The range that the temperature at the intake of the GPU lies in.
    ///
    /// Calls `GetGPUIntakeTemperatureRange` of `IADLXGPUMetricsSupport`.
    pub fn gpu_intake_temperature_range<L: Adlx>(
        &self,
        lib: &mut L,
    ) -> (r: Result<core::ops::Range<i32>, Error>)
        requires
            old(lib).inv(),
            old(lib).world().live(self.raw()),
        ensures
            final(lib).inv(),
            took(
                old(lib),
                final(lib),
                seq![Call::Invoke(self.raw(), Method::SupportGetGpuIntakeTemperatureRange)],
            ),
            final(lib).world() == old(lib).world(),
            r == bounds_of(
                old(lib).answer(
                    self.raw(), Method::SupportGetGpuIntakeTemperatureRange, Args::nothing(),
                ),
            ),
    {
        call_bounds(lib, self.as_raw(), Method::SupportGetGpuIntakeTemperatureRange)
    }
}

} // verus!
