//! What holds of the identities of the interfaces that this crate declares.

use vstd::prelude::*;
use crate::display::Display;
use crate::display_free_sync::DisplayFreeSync;
use crate::display_list::DisplayList;
use crate::display_services::DisplayServices;
use crate::gpu::{Gpu, Gpu1};
use crate::gpu_list::GpuList;
use crate::gpu_metrics::{GpuMetrics, GpuMetricsList, GpuMetricsSupport};
use crate::interface::{identity, Interface, InterfaceImpl};
use crate::library::system_iid;
use crate::list::List;
use crate::performance_monitoring_services::PerformanceMonitoringServices;
use crate::system::System1;
use crate::three_d_chill::ThreeDChill;
use crate::three_d_frame_rate_target_control::ThreeDFrameRateTargetControl;
use crate::three_d_settings_services::ThreeDSettingsServices;
use crate::three_d_wait_for_vertical_refresh::ThreeDWaitForVerticalRefresh;
use crate::wide::{is_plain, lemma_wire_names_differ};

verus! {

/// Two interfaces whose identities are plain and differ go by different
/// names: an object that answers to the one does not thereby answer to the
/// other.
pub proof fn lemma_identities_differ<I: Interface, J: Interface>()
    requires
        is_plain(I::iid()),
        is_plain(J::iid()),
        I::iid() != J::iid(),
    ensures
        identity::<I>() != identity::<J>(),
{
    lemma_wire_names_differ(I::iid(), J::iid());
}

/// Every identity that this crate declares is plain.
pub proof fn lemma_identities_are_plain()
    ensures
        is_plain(system_iid()),
        is_plain(InterfaceImpl::iid()),
        is_plain(List::iid()),
        is_plain(Gpu::iid()),
        is_plain(Gpu1::iid()),
        is_plain(GpuList::iid()),
        is_plain(GpuMetrics::iid()),
        is_plain(GpuMetricsList::iid()),
        is_plain(GpuMetricsSupport::iid()),
        is_plain(PerformanceMonitoringServices::iid()),
        is_plain(Display::iid()),
        is_plain(DisplayList::iid()),
        is_plain(DisplayFreeSync::iid()),
        is_plain(DisplayServices::iid()),
        is_plain(System1::iid()),
        is_plain(ThreeDChill::iid()),
        is_plain(ThreeDFrameRateTargetControl::iid()),
        is_plain(ThreeDSettingsServices::iid()),
        is_plain(ThreeDWaitForVerticalRefresh::iid()),
{
    reveal_strlit("IADLXSystem");
    reveal_strlit("IADLXInterface");
    reveal_strlit("IADLXList");
    reveal_strlit("IADLXGPU");
    reveal_strlit("IADLXGPU1");
    reveal_strlit("IADLXGPUList");
    reveal_strlit("IADLXGPUMetrics");
    reveal_strlit("IADLXGpuMetricsList");
    reveal_strlit("IADLXGpuMetricsSupport");
    reveal_strlit("IADLXPerformanceMonitoringServices");
    reveal_strlit("IADLXDisplay");
    reveal_strlit("IADLXDisplayList");
    reveal_strlit("IADLXDisplayFreeSync");
    reveal_strlit("IADLXDisplayServices");
    reveal_strlit("IADLXSystem1");
    reveal_strlit("IADLX3DChill");
    reveal_strlit("IADLX3DFrameRateTargetControl");
    reveal_strlit("IADLX3DSettingsServices");
    reveal_strlit("IADLX3DWaitForVerticalRefresh");
}

} // verus!
