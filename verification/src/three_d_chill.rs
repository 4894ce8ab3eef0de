//! The handle of the Chill setting of a GPU.

use vstd::prelude::*;
use crate::call::{call_flag, call_int, call_range, flag_of, int_of, range_of};
use crate::ffi::{ADLX_IntRange, Args, Method};
use crate::interface::{cast_done, query_interface, Interface, InterfaceImpl};
use crate::library::{took, Adlx, Call, REF_LIMIT};
use crate::result::Error;

verus! {

/// The handle of the Chill setting of a GPU.
#[derive(Debug)]
pub struct ThreeDChill(InterfaceImpl);

impl Interface for ThreeDChill {
    const IID: &'static str = "IADLX3DChill";

    open spec fn iid() -> Seq<char> {
        "IADLX3DChill"@
    }

    fn interface_id() -> (iid: &'static str) {
        Self::IID
    }

    closed spec fn raw(&self) -> usize {
        self.0.raw()
    }

    fn from_raw(raw: usize) -> (handle: Self) {
        ThreeDChill(InterfaceImpl::from_raw(raw))
    }

    fn as_raw(&self) -> (raw: usize) {
        self.0.as_raw()
    }
}

impl ThreeDChill {
    /// Asks the object whether it also answers to the interface `I`. An
    /// error is the status of the call. See [`query_interface`].
    pub fn cast<I: Interface, L: Adlx>(&self, lib: &mut L) -> (r: Result<I, Error>)
        requires
            old(lib).inv(),
            old(lib).world().live(self.raw()),
            old(lib).world().refs(self.raw()) < REF_LIMIT,
        ensures
            final(lib).inv(),
            cast_done(old(lib), final(lib), self.raw(), r),
    {
        query_interface(lib, self.as_raw())
    }

    /// Takes one more reference to the object and returns the handle that
    /// owns it.
    pub fn clone<L: Adlx>(&self, lib: &mut L) -> (copy: Self)
        requires
            old(lib).inv(),
            old(lib).world().live(self.raw()),
            old(lib).world().refs(self.raw()) < REF_LIMIT,
        ensures
            final(lib).inv(),
            copy.raw() == self.raw(),
            final(lib).world() == old(lib).world().acquire(self.raw()),
            took(old(lib), final(lib), seq![Call::Acquire(self.raw())]),
    {
        ThreeDChill(self.0.clone(lib))
    }

    /// Gives the reference of this handle up.
    pub fn drop<L: Adlx>(self, lib: &mut L)
        requires
            old(lib).inv(),
            old(lib).world().live(self.raw()),
        ensures
            final(lib).inv(),
            final(lib).world() == old(lib).world().release(self.raw()),
            took(old(lib), final(lib), seq![Call::Release(self.raw())]),
    {
        self.0.drop(lib)
    }

    /// Whether the GPU can do Chill.
    ///
    /// Calls `IsSupported` of `IADLX3DChill`.
    pub fn is_supported<L: Adlx>(&self, lib: &mut L) -> (r: Result<bool, Error>)
        requires
            old(lib).inv(),
            old(lib).world().live(self.raw()),
        ensures
            final(lib).inv(),
            took(old(lib), final(lib), seq![Call::Invoke(self.raw(), Method::ChillIsSupported)]),
            final(lib).world() == old(lib).world(),
            r == flag_of(old(lib).answer(self.raw(), Method::ChillIsSupported, Args::nothing())),
    {
        call_flag(lib, self.as_raw(), Method::ChillIsSupported)
    }

    /// Whether Chill is switched on.
    ///
    /// Calls `IsEnabled` of `IADLX3DChill`.
    pub fn is_enabled<L: Adlx>(&self, lib: &mut L) -> (r: Result<bool, Error>)
        requires
            old(lib).inv(),
            old(lib).world().live(self.raw()),
        ensures
            final(lib).inv(),
            took(old(lib), final(lib), seq![Call::Invoke(self.raw(), Method::ChillIsEnabled)]),
            final(lib).world() == old(lib).world(),
            r == flag_of(old(lib).answer(self.raw(), Method::ChillIsEnabled, Args::nothing())),
    {
        call_flag(lib, self.as_raw(), Method::ChillIsEnabled)
    }

    /// The frame rates that Chill can be set to.
    ///
    /// Calls `GetFPSRange` of `IADLX3DChill`.
    pub fn get_fps_range<L: Adlx>(&self, lib: &mut L) -> (r: Result<ADLX_IntRange, Error>)
        requires
            old(lib).inv(),
            old(lib).world().live(self.raw()),
        ensures
            final(lib).inv(),
            took(old(lib), final(lib), seq![Call::Invoke(self.raw(), Method::ChillGetFpsRange)]),
            final(lib).world() == old(lib).world(),
            r == range_of(old(lib).answer(self.raw(), Method::ChillGetFpsRange, Args::nothing())),
    {
        call_range(lib, self.as_raw(), Method::ChillGetFpsRange)
    }

    /// The lowest frame rate that Chill goes down to.
    ///
    /// Calls `GetMinFPS` of `IADLX3DChill`.
    pub fn get_min_fps<L: Adlx>(&self, lib: &mut L) -> (r: Result<i32, Error>)
        requires
            old(lib).inv(),
            old(lib).world().live(self.raw()),
        ensures
            final(lib).inv(),
            took(old(lib), final(lib), seq![Call::Invoke(self.raw(), Method::ChillGetMinFps)]),
            final(lib).world() == old(lib).world(),
            r == int_of(old(lib).answer(self.raw(), Method::ChillGetMinFps, Args::nothing())),
    {
        call_int(lib, self.as_raw(), Method::ChillGetMinFps)
    }

    /// The highest frame rate that Chill goes up to.
    ///
    /// Calls `GetMaxFPS` of `IADLX3DChill`.
    pub fn get_max_fps<L: Adlx>(&self, lib: &mut L) -> (r: Result<i32, Error>)
        requires
            old(lib).inv(),
            old(lib).world().live(self.raw()),
        ensures
            final(lib).inv(),
            took(old(lib), final(lib), seq![Call::Invoke(self.raw(), Method::ChillGetMaxFps)]),
            final(lib).world() == old(lib).world(),
            r == int_of(old(lib).answer(self.raw(), Method::ChillGetMaxFps, Args::nothing())),
    {
        call_int(lib, self.as_raw(), Method::ChillGetMaxFps)
    }
}

/// The Chill setting of a GPU, by its short name.
pub type Chill = ThreeDChill;

} // verus!
