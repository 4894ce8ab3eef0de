//! The root object of the foreign library.

use vstd::prelude::*;
use crate::call::{address_of, call_int, call_object, int_of};
use crate::display_services::DisplaysServices;
use crate::ffi::{Args, Method, ADLX_HG_TYPE};
use crate::gpu_list::GpuList;
use crate::interface::{cast_done, handle_in, identity, query_interface, Interface, InterfaceImpl};
use crate::library::{took, Adlx, Call, REF_LIMIT};
use crate::performance_monitoring_services::PerformanceMonitoringServices;
use crate::result::Error;
use crate::three_d_settings_services::ThreeDSettingsServices;

verus! {

/// The handle of the root object, from which all other objects are reached.
///
/// The root object is one of a kind. It looks like the objects behind an
/// [`Interface`] but is not counted as they are: initialize hands it out,
/// terminate takes it back, and there is nothing to clone or to drop in
/// between.
#[derive(Debug)]
pub struct System(usize);

impl System {
    /// The address of the root object.
    pub closed spec fn raw(&self) -> usize {
        self.0
    }

    /// Wraps the address that initialize has handed out. It must not be
    /// null.
    pub fn from_raw(raw: usize) -> (system: Self)
        requires
            raw != 0,
        ensures
            system.raw() == raw,
    {
        System(raw)
    }

    /// The address of the root object.
    pub fn as_raw(&self) -> (raw: usize)
        ensures
            raw == self.raw(),
    {
        self.0
    }

    /// Asks the root object whether it also answers to the interface `I`.
    /// An error is the status of the call. See [`query_interface`].
    pub fn cast<I: Interface, L: Adlx>(&self, lib: &mut L) -> (r: Result<I, Error>)
        requires
            old(lib).inv(),
            old(lib).world().live(self.raw()),
            old(lib).world().refs(self.raw()) < REF_LIMIT,
        ensures
            final(lib).inv(),
            cast_done(old(lib), final(lib), self.raw(), r),
    {
        query_interface(lib, self.as_raw())
    }

    /// The kind of hybrid graphics that the system runs.
    ///
    /// Calls `GetHybridGraphicsType` of `IADLXSystem`.
    pub fn hybrid_graphics_type<L: Adlx>(&self, lib: &mut L) -> (r: Result<ADLX_HG_TYPE, Error>)
        requires
            old(lib).inv(),
            old(lib).world().live(self.raw()),
        ensures
            final(lib).inv(),
            took(
                old(lib),
                final(lib),
                seq![Call::Invoke(self.raw(), Method::SystemGetHybridGraphicsType)],
            ),
            final(lib).world() == old(lib).world(),
            r == int_of(
                old(lib).answer(self.raw(), Method::SystemGetHybridGraphicsType, Args::nothing()),
            ),
    {
        call_int(lib, self.as_raw(), Method::SystemGetHybridGraphicsType)
    }

    /// The list of the GPUs of the system.
    ///
    /// Calls `GetGPUs` of `IADLXSystem`.
    pub fn gpus<L: Adlx>(&self, lib: &mut L) -> (r: Result<GpuList, Error>)
        requires
            old(lib).inv(),
            old(lib).world().live(self.raw()),
        ensures
            final(lib).inv(),
            took(old(lib), final(lib), seq![Call::Invoke(self.raw(), Method::SystemGetGpus)]),
            handle_in(r) == address_of(
                old(lib).answer(self.raw(), Method::SystemGetGpus, Args::nothing()),
            ),
            r matches Ok(handle) ==> final(lib).world().adopted(
                old(lib).world(),
                handle.raw(),
                identity::<GpuList>(),
            ),
            r is Err ==> final(lib).world() == old(lib).world(),
    {
        call_object(lib, self.as_raw(), Method::SystemGetGpus, Args::none())
    }

    /// The services that look after the displays.
    ///
    /// Calls `GetDisplaysServices` of `IADLXSystem`.
    pub fn get_displays_services<L: Adlx>(
        &self,
        lib: &mut L,
    ) -> (r: Result<DisplaysServices, Error>)
        requires
            old(lib).inv(),
            old(lib).world().live(self.raw()),
        ensures
            final(lib).inv(),
            took(
                old(lib),
                final(lib),
                seq![Call::Invoke(self.raw(), Method::SystemGetDisplaysServices)],
            ),
            handle_in(r) == address_of(
                old(lib).answer(self.raw(), Method::SystemGetDisplaysServices, Args::nothing()),
            ),
            r matches Ok(handle) ==> final(lib).world().adopted(
                old(lib).world(),
                handle.raw(),
                identity::<DisplaysServices>(),
            ),
            r is Err ==> final(lib).world() == old(lib).world(),
    {
        call_object(lib, self.as_raw(), Method::SystemGetDisplaysServices, Args::none())
    }

    /// The services that look after the 3D settings.
    ///
    /// Calls `Get3DSettingsServices` of `IADLXSystem`.
    pub fn get_3d_settings_services<L: Adlx>(
        &self,
        lib: &mut L,
    ) -> (r: Result<ThreeDSettingsServices, Error>)
        requires
            old(lib).inv(),
            old(lib).world().live(self.raw()),
        ensures
            final(lib).inv(),
            took(
                old(lib),
                final(lib),
                seq![Call::Invoke(self.raw(), Method::SystemGet3DSettingsServices)],
            ),
            handle_in(r) == address_of(
                old(lib).answer(self.raw(), Method::SystemGet3DSettingsServices, Args::nothing()),
            ),
            r matches Ok(handle) ==> final(lib).world().adopted(
                old(lib).world(),
                handle.raw(),
                identity::<ThreeDSettingsServices>(),
            ),
            r is Err ==> final(lib).world() == old(lib).world(),
    {
        call_object(lib, self.as_raw(), Method::SystemGet3DSettingsServices, Args::none())
    }

    /// The services that monitor performance.
    ///
    /// Calls `GetPerformanceMonitoringServices` of `IADLXSystem`.
    pub fn performance_monitoring_services<L: Adlx>(
        &self,
        lib: &mut L,
    ) -> (r: Result<PerformanceMonitoringServices, Error>)
        requires
            old(lib).inv(),
            old(lib).world().live(self.raw()),
        ensures
            final(lib).inv(),
            took(
                old(lib),
                final(lib),
                seq![Call::Invoke(self.raw(), Method::SystemGetPerformanceMonitoringServices)],
            ),
            handle_in(r) == address_of(
                old(lib).answer(
                    self.raw(), Method::SystemGetPerformanceMonitoringServices, Args::nothing(),
                ),
            ),
            r matches Ok(handle) ==> final(lib).world().adopted(
                old(lib).world(),
                handle.raw(),
                identity::<PerformanceMonitoringServices>(),
            ),
            r is Err ==> final(lib).world() == old(lib).world(),
    {
        call_object(
            lib, self.as_raw(), Method::SystemGetPerformanceMonitoringServices, Args::none(),
        )
    }
}

/// The handle of the root object, as the second version of its interface
/// knows it.
#[derive(Debug)]
pub struct System1(InterfaceImpl);

impl Interface for System1 {
    const IID: &'static str = "IADLXSystem1";

    open spec fn iid() -> Seq<char> {
        "IADLXSystem1"@
    }

    fn interface_id() -> (iid: &'static str) {
        Self::IID
    }

    closed spec fn raw(&self) -> usize {
        self.0.raw()
    }

    fn from_raw(raw: usize) -> (handle: Self) {
        System1(InterfaceImpl::from_raw(raw))
    }

    fn as_raw(&self) -> (raw: usize) {
        self.0.as_raw()
    }
}

impl System1 {
    /// Asks the object whether it also answers to the interface `I`. An
    /// error is the status of the call. See [`query_interface`].
    pub fn cast<I: Interface, L: Adlx>(&self, lib: &mut L) -> (r: Result<I, Error>)
        requires
            old(lib).inv(),
            old(lib).world().live(self.raw()),
            old(lib).world().refs(self.raw()) < REF_LIMIT,
        ensures
            final(lib).inv(),
            cast_done(old(lib), final(lib), self.raw(), r),
    {
        query_interface(lib, self.as_raw())
    }

    /// Takes one more reference to the object and returns the handle that
    /// owns it.
    pub fn clone<L: Adlx>(&self, lib: &mut L) -> (copy: Self)
        requires
            old(lib).inv(),
            old(lib).world().live(self.raw()),
            old(lib).world().refs(self.raw()) < REF_LIMIT,
        ensures
            final(lib).inv(),
            copy.raw() == self.raw(),
            final(lib).world() == old(lib).world().acquire(self.raw()),
            took(old(lib), final(lib), seq![Call::Acquire(self.raw())]),
    {
        System1(self.0.clone(lib))
    }

    /// Gives the reference of this handle up.
    pub fn drop<L: Adlx>(self, lib: &mut L)
        requires
            old(lib).inv(),
            old(lib).world().live(self.raw()),
        ensures
            final(lib).inv(),
            final(lib).world() == old(lib).world().release(self.raw()),
            took(old(lib), final(lib), seq![Call::Release(self.raw())]),
    {
        self.0.drop(lib)
    }
}

} // verus!
