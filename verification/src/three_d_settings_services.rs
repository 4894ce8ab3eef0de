//! The handle of the services that look after the 3D settings.

use vstd::prelude::*;
use crate::call::{address_of, call_object};
use crate::ffi::{Args, Method};
use crate::gpu::Gpu;
use crate::interface::{cast_done, handle_in, identity, query_interface, Interface, InterfaceImpl};
use crate::library::{took, Adlx, Call, REF_LIMIT};
use crate::result::Error;
use crate::three_d_chill::ThreeDChill;
use crate::three_d_frame_rate_target_control::ThreeDFrameRateTargetControl;
use crate::three_d_wait_for_vertical_refresh::ThreeDWaitForVerticalRefresh;

verus! {

/// The handle of the services that look after the 3D settings.
#[derive(Debug)]
pub struct ThreeDSettingsServices(InterfaceImpl);

impl Interface for ThreeDSettingsServices {
    const IID: &'static str = "IADLX3DSettingsServices";

    open spec fn iid() -> Seq<char> {
        "IADLX3DSettingsServices"@
    }

    fn interface_id() -> (iid: &'static str) {
        Self::IID
    }

    closed spec fn raw(&self) -> usize {
        self.0.raw()
    }

    fn from_raw(raw: usize) -> (handle: Self) {
        ThreeDSettingsServices(InterfaceImpl::from_raw(raw))
    }

    fn as_raw(&self) -> (raw: usize) {
        self.0.as_raw()
    }
}

impl ThreeDSettingsServices {
    /// Asks the object whether it also answers to the interface `I`. An
    /// error is the status of the call. See [`query_interface`].
    pub fn cast<I: Interface, L: Adlx>(&self, lib: &mut L) -> (r: Result<I, Error>)
        requires
            old(lib).inv(),
            old(lib).world().live(self.raw()),
            old(lib).world().refs(self.raw()) < REF_LIMIT,
        ensures
            final(lib).inv(),
            cast_done(old(lib), final(lib), self.raw(), r),
    {
        query_interface(lib, self.as_raw())
    }

    /// Takes one more reference to the object and returns the handle that
    /// owns it.
    pub fn clone<L: Adlx>(&self, lib: &mut L) -> (copy: Self)
        requires
            old(lib).inv(),
            old(lib).world().live(self.raw()),
            old(lib).world().refs(self.raw()) < REF_LIMIT,
        ensures
            final(lib).inv(),
            copy.raw() == self.raw(),
            final(lib).world() == old(lib).world().acquire(self.raw()),
            took(old(lib), final(lib), seq![Call::Acquire(self.raw())]),
    {
        ThreeDSettingsServices(self.0.clone(lib))
    }

    /// Gives the reference of this handle up.
    pub fn drop<L: Adlx>(self, lib: &mut L)
        requires
            old(lib).inv(),
            old(lib).world().live(self.raw()),
        ensures
            final(lib).inv(),
            final(lib).world() == old(lib).world().release(self.raw()),
            took(old(lib), final(lib), seq![Call::Release(self.raw())]),
    {
        self.0.drop(lib)
    }

    /// The setting of `gpu` for waiting on the vertical refresh.
    ///
    /// Calls `GetWaitForVerticalRefresh` of `IADLX3DSettingsServices`.
    pub fn get_wait_for_vertical_refresh<L: Adlx>(
        &self,
        lib: &mut L,
        gpu: &Gpu,
    ) -> (r: Result<ThreeDWaitForVerticalRefresh, Error>)
        requires
            old(lib).inv(),
            old(lib).world().live(self.raw()),
            old(lib).world().live(gpu.raw()),
        ensures
            final(lib).inv(),
            took(
                old(lib),
                final(lib),
                seq![Call::Invoke(self.raw(), Method::SettingsGetWaitForVerticalRefresh)],
            ),
            handle_in(r) == address_of(
                old(lib).answer(
                    self.raw(),
                    Method::SettingsGetWaitForVerticalRefresh,
                    Args::of_object(gpu.raw()),
                ),
            ),
            r matches Ok(handle) ==> final(lib).world().adopted(
                old(lib).world(),
                handle.raw(),
                identity::<ThreeDWaitForVerticalRefresh>(),
            ),
            r is Err ==> final(lib).world() == old(lib).world(),
    {
        call_object(
            lib,
            self.as_raw(),
            Method::SettingsGetWaitForVerticalRefresh,
            Args::object(gpu.as_raw()),
        )
    }

    /// The Chill setting of `gpu`.
    ///
    /// Calls `GetChill` of `IADLX3DSettingsServices`.
    pub fn get_chill<L: Adlx>(&self, lib: &mut L, gpu: &Gpu) -> (r: Result<ThreeDChill, Error>)
        requires
            old(lib).inv(),
            old(lib).world().live(self.raw()),
            old(lib).world().live(gpu.raw()),
        ensures
            final(lib).inv(),
            took(old(lib), final(lib), seq![Call::Invoke(self.raw(), Method::SettingsGetChill)]),
            handle_in(r) == address_of(
                old(lib).answer(self.raw(), Method::SettingsGetChill, Args::of_object(gpu.raw())),
            ),
            r matches Ok(handle) ==> final(lib).world().adopted(
                old(lib).world(),
                handle.raw(),
                identity::<ThreeDChill>(),
            ),
            r is Err ==> final(lib).world() == old(lib).world(),
    {
        call_object(lib, self.as_raw(), Method::SettingsGetChill, Args::object(gpu.as_raw()))
    }

    /// The setting of `gpu` for the target frame rate.
    ///
    /// Calls `GetFrameRateTargetControl` of `IADLX3DSettingsServices`.
    pub fn get_frame_rate_target_control<L: Adlx>(
        &self,
        lib: &mut L,
        gpu: &Gpu,
    ) -> (r: Result<ThreeDFrameRateTargetControl, Error>)
        requires
            old(lib).inv(),
            old(lib).world().live(self.raw()),
            old(lib).world().live(gpu.raw()),
        ensures
            final(lib).inv(),
            took(
                old(lib),
                final(lib),
                seq![Call::Invoke(self.raw(), Method::SettingsGetFrameRateTargetControl)],
            ),
            handle_in(r) == address_of(
                old(lib).answer(
                    self.raw(),
                    Method::SettingsGetFrameRateTargetControl,
                    Args::of_object(gpu.raw()),
                ),
            ),
            r matches Ok(handle) ==> final(lib).world().adopted(
                old(lib).world(),
                handle.raw(),
                identity::<ThreeDFrameRateTargetControl>(),
            ),
            r is Err ==> final(lib).world() == old(lib).world(),
    {
        call_object(
            lib,
            self.as_raw(),
            Method::SettingsGetFrameRateTargetControl,
            Args::object(gpu.as_raw()),
        )
    }
}

} // verus!
