//! Handles of GPUs.

use vstd::prelude::*;
use crate::call::{
    call_flag, call_int, call_text, call_uint, flag_of, int_of, text_calls, text_in, uint_of,
};
use crate::ffi::{
    Args, Method, ADLX_ASIC_FAMILY_TYPE, ADLX_GPU_TYPE, ADLX_MGPU_MODE, ADLX_PCI_BUS_TYPE,
};
use crate::interface::{cast_done, lemma_same_address, query_interface, Interface, InterfaceImpl};
use crate::library::{took, Adlx, Call, REF_LIMIT};
use crate::result::{outcome, Error};

verus! {

/// The handle of one GPU.
#[derive(Debug)]
pub struct Gpu(InterfaceImpl);

impl Interface for Gpu {
    const IID: &'static str = "IADLXGPU";

    open spec fn iid() -> Seq<char> {
        "IADLXGPU"@
    }

    fn interface_id() -> (iid: &'static str) {
        Self::IID
    }

    closed spec fn raw(&self) -> usize {
        self.0.raw()
    }

    fn from_raw(raw: usize) -> (handle: Self) {
        Gpu(InterfaceImpl::from_raw(raw))
    }

    fn as_raw(&self) -> (raw: usize) {
        self.0.as_raw()
    }
}

impl Gpu {
    /// Asks the object whether it also answers to the interface `I`. An
    /// error is the status of the call. See [`query_interface`].
    pub fn cast<I: Interface, L: Adlx>(&self, lib: &mut L) -> (r: Result<I, Error>)
        requires
            old(lib).inv(),
            old(lib).world().live(self.raw()),
            old(lib).world().refs(self.raw()) < REF_LIMIT,
        ensures
            final(lib).inv(),
            cast_done(old(lib), final(lib), self.raw(), r),
    {
        query_interface(lib, self.as_raw())
    }

    /// Takes one more reference to the object and returns the handle that
    /// owns it.
    pub fn clone<L: Adlx>(&self, lib: &mut L) -> (copy: Self)
        requires
            old(lib).inv(),
            old(lib).world().live(self.raw()),
            old(lib).world().refs(self.raw()) < REF_LIMIT,
        ensures
            final(lib).inv(),
            copy.raw() == self.raw(),
            final(lib).world() == old(lib).world().acquire(self.raw()),
            took(old(lib), final(lib), seq![Call::Acquire(self.raw())]),
    {
        Gpu(self.0.clone(lib))
    }

    /// Gives the reference of this handle up.
    pub fn drop<L: Adlx>(self, lib: &mut L)
        requires
            old(lib).inv(),
            old(lib).world().live(self.raw()),
        ensures
            final(lib).inv(),
            final(lib).world() == old(lib).world().release(self.raw()),
            took(old(lib), final(lib), seq![Call::Release(self.raw())]),
    {
        self.0.drop(lib)
    }

    /// The identifier of the vendor of the GPU.
    ///
    /// Calls `VendorId` of `IADLXGPU`.
    pub fn vendor_id<L: Adlx>(&self, lib: &mut L) -> (r: Result<String, Error>)
        requires
            old(lib).inv(),
            old(lib).world().live(self.raw()),
        ensures
            final(lib).inv(),
            took(
                old(lib),
                final(lib),
                text_calls(
                    self.raw(),
                    Method::GpuVendorId,
                    old(lib).answer(self.raw(), Method::GpuVendorId, Args::nothing()),
                ),
            ),
            final(lib).world() == old(lib).world(),
            text_in(r) == outcome(
                old(lib).answer(self.raw(), Method::GpuVendorId, Args::nothing()).status,
                old(lib).text_answer(self.raw(), Method::GpuVendorId, Args::nothing()),
            ),
    {
        call_text(lib, self.as_raw(), Method::GpuVendorId)
    }

    /// The ASIC family that the GPU belongs to.
    ///
    /// Calls `ASICFamilyType` of `IADLXGPU`.
    pub fn asic_family_type<L: Adlx>(
        &self,
        lib: &mut L,
    ) -> (r: Result<ADLX_ASIC_FAMILY_TYPE, Error>)
        requires
            old(lib).inv(),
            old(lib).world().live(self.raw()),
        ensures
            final(lib).inv(),
            took(old(lib), final(lib), seq![Call::Invoke(self.raw(), Method::GpuAsicFamilyType)]),
            final(lib).world() == old(lib).world(),
            r == int_of(old(lib).answer(self.raw(), Method::GpuAsicFamilyType, Args::nothing())),
    {
        call_int(lib, self.as_raw(), Method::GpuAsicFamilyType)
    }

    /// Whether the GPU is integrated or discrete.
    ///
    /// Calls `Type` of `IADLXGPU`.
    pub fn type_<L: Adlx>(&self, lib: &mut L) -> (r: Result<ADLX_GPU_TYPE, Error>)
        requires
            old(lib).inv(),
            old(lib).world().live(self.raw()),
        ensures
            final(lib).inv(),
            took(old(lib), final(lib), seq![Call::Invoke(self.raw(), Method::GpuType)]),
            final(lib).world() == old(lib).world(),
            r == int_of(old(lib).answer(self.raw(), Method::GpuType, Args::nothing())),
    {
        call_int(lib, self.as_raw(), Method::GpuType)
    }

    /// Whether the GPU sits outside the machine.
    ///
    /// Calls `IsExternal` of `IADLXGPU`.
    pub fn is_external<L: Adlx>(&self, lib: &mut L) -> (r: Result<bool, Error>)
        requires
            old(lib).inv(),
            old(lib).world().live(self.raw()),
        ensures
            final(lib).inv(),
            took(old(lib), final(lib), seq![Call::Invoke(self.raw(), Method::GpuIsExternal)]),
            final(lib).world() == old(lib).world(),
            r == flag_of(old(lib).answer(self.raw(), Method::GpuIsExternal, Args::nothing())),
    {
        call_flag(lib, self.as_raw(), Method::GpuIsExternal)
    }

    /// The name of the GPU.
    ///
    /// Calls `Name` of `IADLXGPU`.
    pub fn name<L: Adlx>(&self, lib: &mut L) -> (r: Result<String, Error>)
        requires
            old(lib).inv(),
            old(lib).world().live(self.raw()),
        ensures
            final(lib).inv(),
            took(
                old(lib),
                final(lib),
                text_calls(
                    self.raw(),
                    Method::GpuName,
                    old(lib).answer(self.raw(), Method::GpuName, Args::nothing()),
                ),
            ),
            final(lib).world() == old(lib).world(),
            text_in(r) == outcome(
                old(lib).answer(self.raw(), Method::GpuName, Args::nothing()).status,
                old(lib).text_answer(self.raw(), Method::GpuName, Args::nothing()),
            ),
    {
        call_text(lib, self.as_raw(), Method::GpuName)
    }

    /// The path of the driver of the GPU.
    ///
    /// Calls `DriverPath` of `IADLXGPU`.
    pub fn driver_path<L: Adlx>(&self, lib: &mut L) -> (r: Result<String, Error>)
        requires
            old(lib).inv(),
            old(lib).world().live(self.raw()),
        ensures
            final(lib).inv(),
            took(
                old(lib),
                final(lib),
                text_calls(
                    self.raw(),
                    Method::GpuDriverPath,
                    old(lib).answer(self.raw(), Method::GpuDriverPath, Args::nothing()),
                ),
            ),
            final(lib).world() == old(lib).world(),
            text_in(r) == outcome(
                old(lib).answer(self.raw(), Method::GpuDriverPath, Args::nothing()).status,
                old(lib).text_answer(self.raw(), Method::GpuDriverPath, Args::nothing()),
            ),
    {
        call_text(lib, self.as_raw(), Method::GpuDriverPath)
    }

    /// The plug-and-play string of the GPU.
    ///
    /// Calls `PNPString` of `IADLXGPU`.
    pub fn pnp_string<L: Adlx>(&self, lib: &mut L) -> (r: Result<String, Error>)
        requires
            old(lib).inv(),
            old(lib).world().live(self.raw()),
        ensures
            final(lib).inv(),
            took(
                old(lib),
                final(lib),
                text_calls(
                    self.raw(),
                    Method::GpuPnpString,
                    old(lib).answer(self.raw(), Method::GpuPnpString, Args::nothing()),
                ),
            ),
            final(lib).world() == old(lib).world(),
            text_in(r) == outcome(
                old(lib).answer(self.raw(), Method::GpuPnpString, Args::nothing()).status,
                old(lib).text_answer(self.raw(), Method::GpuPnpString, Args::nothing()),
            ),
    {
        call_text(lib, self.as_raw(), Method::GpuPnpString)
    }

    /// The size of the video memory of the GPU, in MB.
    ///
    /// Calls `TotalVRAM` of `IADLXGPU`.
    pub fn total_vram<L: Adlx>(&self, lib: &mut L) -> (r: Result<u32, Error>)
        requires
            old(lib).inv(),
            old(lib).world().live(self.raw()),
        ensures
            final(lib).inv(),
            took(old(lib), final(lib), seq![Call::Invoke(self.raw(), Method::GpuTotalVram)]),
            final(lib).world() == old(lib).world(),
            r == uint_of(old(lib).answer(self.raw(), Method::GpuTotalVram, Args::nothing())),
    {
        call_uint(lib, self.as_raw(), Method::GpuTotalVram)
    }

    /// The type of the video memory of the GPU.
    ///
    /// Calls `VRAMType` of `IADLXGPU`.
    pub fn vram_type<L: Adlx>(&self, lib: &mut L) -> (r: Result<String, Error>)
        requires
            old(lib).inv(),
            old(lib).world().live(self.raw()),
        ensures
            final(lib).inv(),
            took(
                old(lib),
                final(lib),
                text_calls(
                    self.raw(),
                    Method::GpuVramType,
                    old(lib).answer(self.raw(), Method::GpuVramType, Args::nothing()),
                ),
            ),
            final(lib).world() == old(lib).world(),
            text_in(r) == outcome(
                old(lib).answer(self.raw(), Method::GpuVramType, Args::nothing()).status,
                old(lib).text_answer(self.raw(), Method::GpuVramType, Args::nothing()),
            ),
    {
        call_text(lib, self.as_raw(), Method::GpuVramType)
    }

    /// The identifier of the device.
    ///
    /// Calls `DeviceId` of `IADLXGPU`.
    pub fn device_id<L: Adlx>(&self, lib: &mut L) -> (r: Result<String, Error>)
        requires
            old(lib).inv(),
            old(lib).world().live(self.raw()),
        ensures
            final(lib).inv(),
            took(
                old(lib),
                final(lib),
                text_calls(
                    self.raw(),
                    Method::GpuDeviceId,
                    old(lib).answer(self.raw(), Method::GpuDeviceId, Args::nothing()),
                ),
            ),
            final(lib).world() == old(lib).world(),
            text_in(r) == outcome(
                old(lib).answer(self.raw(), Method::GpuDeviceId, Args::nothing()).status,
                old(lib).text_answer(self.raw(), Method::GpuDeviceId, Args::nothing()),
            ),
    {
        call_text(lib, self.as_raw(), Method::GpuDeviceId)
    }

    /// The identifier of the revision of the device.
    ///
    /// Calls `RevisionId` of `IADLXGPU`.
    pub fn revision_id<L: Adlx>(&self, lib: &mut L) -> (r: Result<String, Error>)
        requires
            old(lib).inv(),
            old(lib).world().live(self.raw()),
        ensures
            final(lib).inv(),
            took(
                old(lib),
                final(lib),
                text_calls(
                    self.raw(),
                    Method::GpuRevisionId,
                    old(lib).answer(self.raw(), Method::GpuRevisionId, Args::nothing()),
                ),
            ),
            final(lib).world() == old(lib).world(),
            text_in(r) == outcome(
                old(lib).answer(self.raw(), Method::GpuRevisionId, Args::nothing()).status,
                old(lib).text_answer(self.raw(), Method::GpuRevisionId, Args::nothing()),
            ),
    {
        call_text(lib, self.as_raw(), Method::GpuRevisionId)
    }

    /// The identifier of the subsystem.
    ///
    /// Calls `SubSystemId` of `IADLXGPU`.
    pub fn sub_system_id<L: Adlx>(&self, lib: &mut L) -> (r: Result<String, Error>)
        requires
            old(lib).inv(),
            old(lib).world().live(self.raw()),
        ensures
            final(lib).inv(),
            took(
                old(lib),
                final(lib),
                text_calls(
                    self.raw(),
                    Method::GpuSubSystemId,
                    old(lib).answer(self.raw(), Method::GpuSubSystemId, Args::nothing()),
                ),
            ),
            final(lib).world() == old(lib).world(),
            text_in(r) == outcome(
                old(lib).answer(self.raw(), Method::GpuSubSystemId, Args::nothing()).status,
                old(lib).text_answer(self.raw(), Method::GpuSubSystemId, Args::nothing()),
            ),
    {
        call_text(lib, self.as_raw(), Method::GpuSubSystemId)
    }

    /// The identifier of the vendor of the subsystem.
    ///
    /// Calls `SubSystemVendorId` of `IADLXGPU`.
    pub fn sub_system_vendor_id<L: Adlx>(&self, lib: &mut L) -> (r: Result<String, Error>)
        requires
            old(lib).inv(),
            old(lib).world().live(self.raw()),
        ensures
            final(lib).inv(),
            took(
                old(lib),
                final(lib),
                text_calls(
                    self.raw(),
                    Method::GpuSubSystemVendorId,
                    old(lib).answer(self.raw(), Method::GpuSubSystemVendorId, Args::nothing()),
                ),
            ),
            final(lib).world() == old(lib).world(),
            text_in(r) == outcome(
                old(lib).answer(self.raw(), Method::GpuSubSystemVendorId, Args::nothing()).status,
                old(lib).text_answer(self.raw(), Method::GpuSubSystemVendorId, Args::nothing()),
            ),
    {
        call_text(lib, self.as_raw(), Method::GpuSubSystemVendorId)
    }

    /// The identifier that tells this GPU from the others of the system.
    ///
    /// Calls `UniqueId` of `IADLXGPU`.
    pub fn unique_id<L: Adlx>(&self, lib: &mut L) -> (r: Result<i32, Error>)
        requires
            old(lib).inv(),
            old(lib).world().live(self.raw()),
        ensures
            final(lib).inv(),
            took(old(lib), final(lib), seq![Call::Invoke(self.raw(), Method::GpuUniqueId)]),
            final(lib).world() == old(lib).world(),
            r == int_of(old(lib).answer(self.raw(), Method::GpuUniqueId, Args::nothing())),
    {
        call_int(lib, self.as_raw(), Method::GpuUniqueId)
    }
}

/// The handle of one GPU, as the second version of its interface knows it:
/// all that [`Gpu`] offers, and more.
#[derive(Debug)]
pub struct Gpu1(Gpu);

impl Interface for Gpu1 {
    const IID: &'static str = "IADLXGPU1";

    open spec fn iid() -> Seq<char> {
        "IADLXGPU1"@
    }

    fn interface_id() -> (iid: &'static str) {
        Self::IID
    }

    closed spec fn raw(&self) -> usize {
        self.0.raw()
    }

    fn from_raw(raw: usize) -> (handle: Self) {
        Gpu1(Gpu::from_raw(raw))
    }

    fn as_raw(&self) -> (raw: usize) {
        self.0.as_raw()
    }
}

impl core::ops::Deref for Gpu1 {
    type Target = Gpu;

    /// The same object, as the interface that this one extends knows it.
    fn deref(&self) -> (base: &Gpu)
        ensures
            *base == self.base(),
            base.raw() == self.raw(),
    {
        &self.0
    }
}

impl Gpu1 {
    /// The handle of the base interface that this handle is built on.
    pub closed spec fn base(&self) -> Gpu {
        self.0
    }

    /// Asks the object whether it also answers to the interface `I`. An
    /// error is the status of the call. See [`query_interface`].
    pub fn cast<I: Interface, L: Adlx>(&self, lib: &mut L) -> (r: Result<I, Error>)
        requires
            old(lib).inv(),
            old(lib).world().live(self.raw()),
            old(lib).world().refs(self.raw()) < REF_LIMIT,
        ensures
            final(lib).inv(),
            cast_done(old(lib), final(lib), self.raw(), r),
    {
        query_interface(lib, self.as_raw())
    }

    /// Takes one more reference to the object and returns the handle that
    /// owns it.
    pub fn clone<L: Adlx>(&self, lib: &mut L) -> (copy: Self)
        requires
            old(lib).inv(),
            old(lib).world().live(self.raw()),
            old(lib).world().refs(self.raw()) < REF_LIMIT,
        ensures
            final(lib).inv(),
            copy.raw() == self.raw(),
            final(lib).world() == old(lib).world().acquire(self.raw()),
            took(old(lib), final(lib), seq![Call::Acquire(self.raw())]),
    {
        Gpu1(self.0.clone(lib))
    }

    /// Gives the reference of this handle up.
    pub fn drop<L: Adlx>(self, lib: &mut L)
        requires
            old(lib).inv(),
            old(lib).world().live(self.raw()),
        ensures
            final(lib).inv(),
            final(lib).world() == old(lib).world().release(self.raw()),
            took(old(lib), final(lib), seq![Call::Release(self.raw())]),
    {
        self.0.drop(lib)
    }

    /// The type of the PCI bus that the GPU sits on.
    ///
    /// Calls `PCIBusType` of `IADLXGPU1`.
    pub fn pci_bus_type<L: Adlx>(&self, lib: &mut L) -> (r: Result<ADLX_PCI_BUS_TYPE, Error>)
        requires
            old(lib).inv(),
            old(lib).world().live(self.raw()),
        ensures
            final(lib).inv(),
            took(old(lib), final(lib), seq![Call::Invoke(self.raw(), Method::Gpu1PciBusType)]),
            final(lib).world() == old(lib).world(),
            r == int_of(old(lib).answer(self.raw(), Method::Gpu1PciBusType, Args::nothing())),
    {
        call_int(lib, self.as_raw(), Method::Gpu1PciBusType)
    }

    /// The number of lanes of the PCI bus that the GPU uses.
    ///
    /// Calls `PCIBusLaneWidth` of `IADLXGPU1`.
    pub fn pci_bus_lane_width<L: Adlx>(&self, lib: &mut L) -> (r: Result<u32, Error>)
        requires
            old(lib).inv(),
            old(lib).world().live(self.raw()),
        ensures
            final(lib).inv(),
            took(old(lib), final(lib), seq![Call::Invoke(self.raw(), Method::Gpu1PciBusLaneWidth)]),
            final(lib).world() == old(lib).world(),
            r == uint_of(old(lib).answer(self.raw(), Method::Gpu1PciBusLaneWidth, Args::nothing())),
    {
        call_uint(lib, self.as_raw(), Method::Gpu1PciBusLaneWidth)
    }

    /// The role of the GPU where several GPUs work as one.
    ///
    /// Calls `MultiGPUMode` of `IADLXGPU1`.
    pub fn multi_gpu_mode<L: Adlx>(&self, lib: &mut L) -> (r: Result<ADLX_MGPU_MODE, Error>)
        requires
            old(lib).inv(),
            old(lib).world().live(self.raw()),
        ensures
            final(lib).inv(),
            took(old(lib), final(lib), seq![Call::Invoke(self.raw(), Method::Gpu1MultiGpuMode)]),
            final(lib).world() == old(lib).world(),
            r == int_of(old(lib).answer(self.raw(), Method::Gpu1MultiGpuMode, Args::nothing())),
    {
        call_int(lib, self.as_raw(), Method::Gpu1MultiGpuMode)
    }

    /// The name of the product that the GPU is sold as.
    ///
    /// Calls `ProductName` of `IADLXGPU1`.
    pub fn product_name<L: Adlx>(&self, lib: &mut L) -> (r: Result<String, Error>)
        requires
            old(lib).inv(),
            old(lib).world().live(self.raw()),
        ensures
            final(lib).inv(),
            took(
                old(lib),
                final(lib),
                text_calls(
                    self.raw(),
                    Method::Gpu1ProductName,
                    old(lib).answer(self.raw(), Method::Gpu1ProductName, Args::nothing()),
                ),
            ),
            final(lib).world() == old(lib).world(),
            text_in(r) == outcome(
                old(lib).answer(self.raw(), Method::Gpu1ProductName, Args::nothing()).status,
                old(lib).text_answer(self.raw(), Method::Gpu1ProductName, Args::nothing()),
            ),
    {
        call_text(lib, self.as_raw(), Method::Gpu1ProductName)
    }
}

/// A handle is nothing but its address: two that hold the same address are
/// the same handle.
pub proof fn lemma_same_gpu(a: Gpu, b: Gpu)
    requires
        a.raw() == b.raw(),
    ensures
        a == b,
{
    lemma_same_address(a.0, b.0);
}

/// What a [`Gpu1`] gives for its base interface is the very handle that one would
/// make for the base interface from the same address: an operation of the
/// base interface cannot tell the two apart.
pub proof fn lemma_gpu1_delegates(derived: Gpu1, direct: Gpu)
    requires
        direct.raw() == derived.raw(),
    ensures
        derived.base() == direct,
{
    lemma_same_gpu(derived.0, direct);
}

} // verus!
