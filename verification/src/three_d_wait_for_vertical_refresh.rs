//! The handle of the setting of a GPU for waiting on the vertical refresh.

use vstd::prelude::*;
use crate::call::{call_flag, call_int, call_status, flag_of, int_of, status_of};
use crate::ffi::{Args, Method, ADLX_WAIT_FOR_VERTICAL_REFRESH_MODE};
use crate::interface::{cast_done, query_interface, Interface, InterfaceImpl};
use crate::library::{took, Adlx, Call, REF_LIMIT};
use crate::result::Error;

verus! {

/// The handle of the setting of a GPU for waiting on the vertical refresh.
#[derive(Debug)]
pub struct ThreeDWaitForVerticalRefresh(InterfaceImpl);

impl Interface for ThreeDWaitForVerticalRefresh {
    const IID: &'static str = "IADLX3DWaitForVerticalRefresh";

    open spec fn iid() -> Seq<char> {
        "IADLX3DWaitForVerticalRefresh"@
    }

    fn interface_id() -> (iid: &'static str) {
        Self::IID
    }

    closed spec fn raw(&self) -> usize {
        self.0.raw()
    }

    fn from_raw(raw: usize) -> (handle: Self) {
        ThreeDWaitForVerticalRefresh(InterfaceImpl::from_raw(raw))
    }

    fn as_raw(&self) -> (raw: usize) {
        self.0.as_raw()
    }
}

impl ThreeDWaitForVerticalRefresh {
    /// Asks the object whether it also answers to the interface `I`. An
    /// error is the status of the call. See [`query_interface`].
    pub fn cast<I: Interface, L: Adlx>(&self, lib: &mut L) -> (r: Result<I, Error>)
        requires
            old(lib).inv(),
            old(lib).world().live(self.raw()),
            old(lib).world().refs(self.raw()) < REF_LIMIT,
        ensures
            final(lib).inv(),
            cast_done(old(lib), final(lib), self.raw(), r),
    {
        query_interface(lib, self.as_raw())
    }

    /// Takes one more reference to the object and returns the handle that
    /// owns it.
    pub fn clone<L: Adlx>(&self, lib: &mut L) -> (copy: Self)
        requires
            old(lib).inv(),
            old(lib).world().live(self.raw()),
            old(lib).world().refs(self.raw()) < REF_LIMIT,
        ensures
            final(lib).inv(),
            copy.raw() == self.raw(),
            final(lib).world() == old(lib).world().acquire(self.raw()),
            took(old(lib), final(lib), seq![Call::Acquire(self.raw())]),
    {
        ThreeDWaitForVerticalRefresh(self.0.clone(lib))
    }

    /// Gives the reference of this handle up.
    pub fn drop<L: Adlx>(self, lib: &mut L)
        requires
            old(lib).inv(),
            old(lib).world().live(self.raw()),
        ensures
            final(lib).inv(),
            final(lib).world() == old(lib).world().release(self.raw()),
            took(old(lib), final(lib), seq![Call::Release(self.raw())]),
    {
        self.0.drop(lib)
    }

    /// Whether the GPU can wait for the vertical refresh.
    ///
    /// Calls `IsSupported` of `IADLX3DWaitForVerticalRefresh`.
    pub fn is_supported<L: Adlx>(&self, lib: &mut L) -> (r: Result<bool, Error>)
        requires
            old(lib).inv(),
            old(lib).world().live(self.raw()),
        ensures
            final(lib).inv(),
            took(
                old(lib),
                final(lib),
                seq![Call::Invoke(self.raw(), Method::VerticalRefreshIsSupported)],
            ),
            final(lib).world() == old(lib).world(),
            r == flag_of(
                old(lib).answer(self.raw(), Method::VerticalRefreshIsSupported, Args::nothing()),
            ),
    {
        call_flag(lib, self.as_raw(), Method::VerticalRefreshIsSupported)
    }

    /// Whether waiting for the vertical refresh is switched on.
    ///
    /// Calls `IsEnabled` of `IADLX3DWaitForVerticalRefresh`.
    pub fn is_enabled<L: Adlx>(&self, lib: &mut L) -> (r: Result<bool, Error>)
        requires
            old(lib).inv(),
            old(lib).world().live(self.raw()),
        ensures
            final(lib).inv(),
            took(
                old(lib),
                final(lib),
                seq![Call::Invoke(self.raw(), Method::VerticalRefreshIsEnabled)],
            ),
            final(lib).world() == old(lib).world(),
            r == flag_of(
                old(lib).answer(self.raw(), Method::VerticalRefreshIsEnabled, Args::nothing()),
            ),
    {
        call_flag(lib, self.as_raw(), Method::VerticalRefreshIsEnabled)
    }

    /// When the GPU waits for the vertical refresh.
    ///
    /// Calls `GetMode` of `IADLX3DWaitForVerticalRefresh`.
    pub fn get_mode<L: Adlx>(
        &self,
        lib: &mut L,
    ) -> (r: Result<ADLX_WAIT_FOR_VERTICAL_REFRESH_MODE, Error>)
        requires
            old(lib).inv(),
            old(lib).world().live(self.raw()),
        ensures
            final(lib).inv(),
            took(
                old(lib),
                final(lib),
                seq![Call::Invoke(self.raw(), Method::VerticalRefreshGetMode)],
            ),
            final(lib).world() == old(lib).world(),
            r == int_of(
                old(lib).answer(self.raw(), Method::VerticalRefreshGetMode, Args::nothing()),
            ),
    {
        call_int(lib, self.as_raw(), Method::VerticalRefreshGetMode)
    }

    /// Sets when the GPU waits for the vertical refresh.
    ///
    /// Calls `SetMode` of `IADLX3DWaitForVerticalRefresh`.
    pub fn set_mode<L: Adlx>(
        &mut self,
        lib: &mut L,
        mode: ADLX_WAIT_FOR_VERTICAL_REFRESH_MODE,
    ) -> (r: Result<(), Error>)
        requires
            old(lib).inv(),
            old(lib).world().live(old(self).raw()),
        ensures
            final(lib).inv(),
            took(
                old(lib),
                final(lib),
                seq![Call::Invoke(old(self).raw(), Method::VerticalRefreshSetMode)],
            ),
            final(lib).world() == old(lib).world(),
            final(self).raw() == old(self).raw(),
            r == status_of(
                old(lib).answer(
                    old(self).raw(), Method::VerticalRefreshSetMode, Args::of_value(mode),
                ),
            ),
    {
        call_status(lib, self.as_raw(), Method::VerticalRefreshSetMode, Args::value(mode))
    }
}

} // verus!
