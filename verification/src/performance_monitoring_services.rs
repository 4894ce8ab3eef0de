//! The handle of the services that monitor performance.

use vstd::prelude::*;
use crate::call::{
    address_of, call_int, call_object, call_range, call_status, int_of, range_of, status_of,
};
use crate::ffi::{ADLX_IntRange, Args, Method};
use crate::gpu::Gpu;
use crate::gpu_metrics::{GpuMetrics, GpuMetricsList, GpuMetricsSupport};
use crate::interface::{cast_done, handle_in, identity, query_interface, Interface, InterfaceImpl};
use crate::library::{took, Adlx, Call, REF_LIMIT};
use crate::result::Error;

verus! {

/// The handle of the services that monitor performance.
#[derive(Debug)]
pub struct PerformanceMonitoringServices(InterfaceImpl);

impl Interface for PerformanceMonitoringServices {
    const IID: &'static str = "IADLXPerformanceMonitoringServices";

    open spec fn iid() -> Seq<char> {
        "IADLXPerformanceMonitoringServices"@
    }

    fn interface_id() -> (iid: &'static str) {
        Self::IID
    }

    closed spec fn raw(&self) -> usize {
        self.0.raw()
    }

    fn from_raw(raw: usize) -> (handle: Self) {
        PerformanceMonitoringServices(InterfaceImpl::from_raw(raw))
    }

    fn as_raw(&self) -> (raw: usize) {
        self.0.as_raw()
    }
}

impl PerformanceMonitoringServices {
    /// Asks the object whether it also answers to the interface `I`. An
    /// error is the status of the call. See [`query_interface`].
    pub fn cast<I: Interface, L: Adlx>(&self, lib: &mut L) -> (r: Result<I, Error>)
        requires
            old(lib).inv(),
            old(lib).world().live(self.raw()),
            old(lib).world().refs(self.raw()) < REF_LIMIT,
        ensures
            final(lib).inv(),
            cast_done(old(lib), final(lib), self.raw(), r),
    {
        query_interface(lib, self.as_raw())
    }

    /// Takes one more reference to the object and returns the handle that
    /// owns it.
    pub fn clone<L: Adlx>(&self, lib: &mut L) -> (copy: Self)
        requires
            old(lib).inv(),
            old(lib).world().live(self.raw()),
            old(lib).world().refs(self.raw()) < REF_LIMIT,
        ensures
            final(lib).inv(),
            copy.raw() == self.raw(),
            final(lib).world() == old(lib).world().acquire(self.raw()),
            took(old(lib), final(lib), seq![Call::Acquire(self.raw())]),
    {
        PerformanceMonitoringServices(self.0.clone(lib))
    }

    /// Gives the reference of this handle up.
    pub fn drop<L: Adlx>(self, lib: &mut L)
        requires
            old(lib).inv(),
            old(lib).world().live(self.raw()),
        ensures
            final(lib).inv(),
            final(lib).world() == old(lib).world().release(self.raw()),
            took(old(lib), final(lib), seq![Call::Release(self.raw())]),
    {
        self.0.drop(lib)
    }

    /// A sample of the metrics of `gpu`, taken now.
    ///
    /// Calls `GetCurrentGPUMetrics` of `IADLXPerformanceMonitoringServices`.
    pub fn current_gpu_metrics<L: Adlx>(
        &self,
        lib: &mut L,
        gpu: &Gpu,
    ) -> (r: Result<GpuMetrics, Error>)
        requires
            old(lib).inv(),
            old(lib).world().live(self.raw()),
            old(lib).world().live(gpu.raw()),
        ensures
            final(lib).inv(),
            took(
                old(lib),
                final(lib),
                seq![Call::Invoke(self.raw(), Method::PerformanceGetCurrentGpuMetrics)],
            ),
            handle_in(r) == address_of(
                old(lib).answer(
                    self.raw(), Method::PerformanceGetCurrentGpuMetrics, Args::of_object(gpu.raw()),
                ),
            ),
            r matches Ok(handle) ==> final(lib).world().adopted(
                old(lib).world(),
                handle.raw(),
                identity::<GpuMetrics>(),
            ),
            r is Err ==> final(lib).world() == old(lib).world(),
    {
        call_object(
            lib, self.as_raw(), Method::PerformanceGetCurrentGpuMetrics, Args::object(gpu.as_raw()),
        )
    }

    /// The sampling intervals that can be set, in ms.
    ///
    /// Calls `GetSamplingIntervalRange` of `IADLXPerformanceMonitoringServices`.
    pub fn sampling_interval_range<L: Adlx>(&self, lib: &mut L) -> (r: Result<ADLX_IntRange, Error>)
        requires
            old(lib).inv(),
            old(lib).world().live(self.raw()),
        ensures
            final(lib).inv(),
            took(
                old(lib),
                final(lib),
                seq![Call::Invoke(self.raw(), Method::PerformanceGetSamplingIntervalRange)],
            ),
            final(lib).world() == old(lib).world(),
            r == range_of(
                old(lib).answer(
                    self.raw(), Method::PerformanceGetSamplingIntervalRange, Args::nothing(),
                ),
            ),
    {
        call_range(lib, self.as_raw(), Method::PerformanceGetSamplingIntervalRange)
    }

    /// Sets the interval between two samples, in ms. It must lie in
    /// [`Self::sampling_interval_range`].
    ///
    /// Calls `SetSamplingInterval` of `IADLXPerformanceMonitoringServices`.
    pub fn set_sampling_interval<L: Adlx>(
        &mut self,
        lib: &mut L,
        interval_in_ms: i32,
    ) -> (r: Result<(), Error>)
        requires
            old(lib).inv(),
            old(lib).world().live(old(self).raw()),
        ensures
            final(lib).inv(),
            took(
                old(lib),
                final(lib),
                seq![Call::Invoke(old(self).raw(), Method::PerformanceSetSamplingInterval)],
            ),
            final(lib).world() == old(lib).world(),
            final(self).raw() == old(self).raw(),
            r == status_of(
                old(lib).answer(
                    old(self).raw(),
                    Method::PerformanceSetSamplingInterval,
                    Args::of_value(interval_in_ms),
                ),
            ),
    {
        call_status(
            lib, self.as_raw(), Method::PerformanceSetSamplingInterval, Args::value(interval_in_ms),
        )
    }

    /// The interval between two samples, in ms.
    ///
    /// Calls `GetSamplingInterval` of `IADLXPerformanceMonitoringServices`.
    pub fn sampling_interval<L: Adlx>(&self, lib: &mut L) -> (r: Result<i32, Error>)
        requires
            old(lib).inv(),
            old(lib).world().live(self.raw()),
        ensures
            final(lib).inv(),
            took(
                old(lib),
                final(lib),
                seq![Call::Invoke(self.raw(), Method::PerformanceGetSamplingInterval)],
            ),
            final(lib).world() == old(lib).world(),
            r == int_of(
                old(lib).answer(
                    self.raw(), Method::PerformanceGetSamplingInterval, Args::nothing(),
                ),
            ),
    {
        call_int(lib, self.as_raw(), Method::PerformanceGetSamplingInterval)
    }

    /// The sizes of the history that can be set, in s.
    ///
    /// Calls `GetMaxPerformanceMetricsHistorySizeRange` of `IADLXPerformanceMonitoringServices`.
    pub fn max_performance_metrics_history_range<L: Adlx>(
        &self,
        lib: &mut L,
    ) -> (r: Result<ADLX_IntRange, Error>)
        requires
            old(lib).inv(),
            old(lib).world().live(self.raw()),
        ensures
            final(lib).inv(),
            took(
                old(lib),
                final(lib),
                seq![Call::Invoke(self.raw(), Method::PerformanceGetMaxHistorySizeRange)],
            ),
            final(lib).world() == old(lib).world(),
            r == range_of(
                old(lib).answer(
                    self.raw(), Method::PerformanceGetMaxHistorySizeRange, Args::nothing(),
                ),
            ),
    {
        call_range(lib, self.as_raw(), Method::PerformanceGetMaxHistorySizeRange)
    }

    /// Sets how far back the history reaches at most, in s. It must lie in
    /// [`Self::max_performance_metrics_history_range`].
    ///
    /// Calls `SetMaxPerformanceMetricsHistorySize` of `IADLXPerformanceMonitoringServices`.
    pub fn set_max_performance_metrics_history_size<L: Adlx>(
        &mut self,
        lib: &mut L,
        size_in_sec: i32,
    ) -> (r: Result<(), Error>)
        requires
            old(lib).inv(),
            old(lib).world().live(old(self).raw()),
        ensures
            final(lib).inv(),
            took(
                old(lib),
                final(lib),
                seq![Call::Invoke(old(self).raw(), Method::PerformanceSetMaxHistorySize)],
            ),
            final(lib).world() == old(lib).world(),
            final(self).raw() == old(self).raw(),
            r == status_of(
                old(lib).answer(
                    old(self).raw(),
                    Method::PerformanceSetMaxHistorySize,
                    Args::of_value(size_in_sec),
                ),
            ),
    {
        call_status(
            lib, self.as_raw(), Method::PerformanceSetMaxHistorySize, Args::value(size_in_sec),
        )
    }

    /// How far back the history reaches at most, in s.
    ///
    /// Calls `GetMaxPerformanceMetricsHistorySize` of `IADLXPerformanceMonitoringServices`.
    pub fn max_performance_metrics_history_size<L: Adlx>(
        &self,
        lib: &mut L,
    ) -> (r: Result<i32, Error>)
        requires
            old(lib).inv(),
            old(lib).world().live(self.raw()),
        ensures
            final(lib).inv(),
            took(
                old(lib),
                final(lib),
                seq![Call::Invoke(self.raw(), Method::PerformanceGetMaxHistorySize)],
            ),
            final(lib).world() == old(lib).world(),
            r == int_of(
                old(lib).answer(self.raw(), Method::PerformanceGetMaxHistorySize, Args::nothing()),
            ),
    {
        call_int(lib, self.as_raw(), Method::PerformanceGetMaxHistorySize)
    }

    /// Empties the history.
    ///
    /// Calls `ClearPerformanceMetricsHistory` of `IADLXPerformanceMonitoringServices`.
    pub fn clear_performance_metrics_history<L: Adlx>(&self, lib: &mut L) -> (r: Result<(), Error>)
        requires
            old(lib).inv(),
            old(lib).world().live(self.raw()),
        ensures
            final(lib).inv(),
            took(
                old(lib),
                final(lib),
                seq![Call::Invoke(self.raw(), Method::PerformanceClearHistory)],
            ),
            final(lib).world() == old(lib).world(),
            r == status_of(
                old(lib).answer(self.raw(), Method::PerformanceClearHistory, Args::nothing()),
            ),
    {
        call_status(lib, self.as_raw(), Method::PerformanceClearHistory, Args::none())
    }

    /// How far back the history reaches now, in s.
    ///
    /// Calls `GetCurrentPerformanceMetricsHistorySize` of `IADLXPerformanceMonitoringServices`.
    pub fn current_performance_metrics_history_size_in_sec<L: Adlx>(
        &self,
        lib: &mut L,
    ) -> (r: Result<i32, Error>)
        requires
            old(lib).inv(),
            old(lib).world().live(self.raw()),
        ensures
            final(lib).inv(),
            took(
                old(lib),
                final(lib),
                seq![Call::Invoke(self.raw(), Method::PerformanceGetCurrentHistorySize)],
            ),
            final(lib).world() == old(lib).world(),
            r == int_of(
                old(lib).answer(
                    self.raw(), Method::PerformanceGetCurrentHistorySize, Args::nothing(),
                ),
            ),
    {
        call_int(lib, self.as_raw(), Method::PerformanceGetCurrentHistorySize)
    }

    /// Starts to record samples.
    ///
    /// Calls `StartPerformanceMetricsTracking` of `IADLXPerformanceMonitoringServices`.
    pub fn start_performance_tracking<L: Adlx>(&mut self, lib: &mut L) -> (r: Result<(), Error>)
        requires
            old(lib).inv(),
            old(lib).world().live(old(self).raw()),
        ensures
            final(lib).inv(),
            took(
                old(lib),
                final(lib),
                seq![Call::Invoke(old(self).raw(), Method::PerformanceStartTracking)],
            ),
            final(lib).world() == old(lib).world(),
            final(self).raw() == old(self).raw(),
            r == status_of(
                old(lib).answer(old(self).raw(), Method::PerformanceStartTracking, Args::nothing()),
            ),
    {
        call_status(lib, self.as_raw(), Method::PerformanceStartTracking, Args::none())
    }

    /// Stops recording samples.
    ///
    /// Calls `StopPerformanceMetricsTracking` of `IADLXPerformanceMonitoringServices`.
    pub fn stop_performance_tracking<L: Adlx>(&mut self, lib: &mut L) -> (r: Result<(), Error>)
        requires
            old(lib).inv(),
            old(lib).world().live(old(self).raw()),
        ensures
            final(lib).inv(),
            took(
                old(lib),
                final(lib),
                seq![Call::Invoke(old(self).raw(), Method::PerformanceStopTracking)],
            ),
            final(lib).world() == old(lib).world(),
            final(self).raw() == old(self).raw(),
            r == status_of(
                old(lib).answer(old(self).raw(), Method::PerformanceStopTracking, Args::nothing()),
            ),
    {
        call_status(lib, self.as_raw(), Method::PerformanceStopTracking, Args::none())
    }

    /// The samples of `gpu` that the history holds between two points in
    /// time, both in ms.
    ///
    /// Calls `GetGPUMetricsHistory` of `IADLXPerformanceMonitoringServices`.
    pub fn gpu_metrics_history<L: Adlx>(
        &self,
        lib: &mut L,
        gpu: &Gpu,
        start_in_ms: i32,
        stop_in_ms: i32,
    ) -> (r: Result<GpuMetricsList, Error>)
        requires
            old(lib).inv(),
            old(lib).world().live(self.raw()),
            old(lib).world().live(gpu.raw()),
        ensures
            final(lib).inv(),
            took(
                old(lib),
                final(lib),
                seq![Call::Invoke(self.raw(), Method::PerformanceGetGpuMetricsHistory)],
            ),
            handle_in(r) == address_of(
                old(lib).answer(
                    self.raw(),
                    Method::PerformanceGetGpuMetricsHistory,
                    Args { object: gpu.raw(), first: start_in_ms, second: stop_in_ms },
                ),
            ),
            r matches Ok(handle) ==> final(lib).world().adopted(
                old(lib).world(),
                handle.raw(),
                identity::<GpuMetricsList>(),
            ),
            r is Err ==> final(lib).world() == old(lib).world(),
    {
        let args = Args { object: gpu.as_raw(), first: start_in_ms, second: stop_in_ms };
        call_object(lib, self.as_raw(), Method::PerformanceGetGpuMetricsHistory, args)
    }

    /// Which metrics `gpu` can report.
    ///
    /// Calls `GetSupportedGPUMetrics` of `IADLXPerformanceMonitoringServices`.
    pub fn supported_gpu_metrics<L: Adlx>(
        &self,
        lib: &mut L,
        gpu: &Gpu,
    ) -> (r: Result<GpuMetricsSupport, Error>)
        requires
            old(lib).inv(),
            old(lib).world().live(self.raw()),
            old(lib).world().live(gpu.raw()),
        ensures
            final(lib).inv(),
            took(
                old(lib),
                final(lib),
                seq![Call::Invoke(self.raw(), Method::PerformanceGetSupportedGpuMetrics)],
            ),
            handle_in(r) == address_of(
                old(lib).answer(
                    self.raw(),
                    Method::PerformanceGetSupportedGpuMetrics,
                    Args::of_object(gpu.raw()),
                ),
            ),
            r matches Ok(handle) ==> final(lib).world().adopted(
                old(lib).world(),
                handle.raw(),
                identity::<GpuMetricsSupport>(),
            ),
            r is Err ==> final(lib).world() == old(lib).world(),
    {
        call_object(
            lib,
            self.as_raw(),
            Method::PerformanceGetSupportedGpuMetrics,
            Args::object(gpu.as_raw()),
        )
    }
}

} // verus!
