//! The handle of the setting of a GPU for the target frame rate.

use vstd::prelude::*;
use crate::call::{call_flag, call_int, call_range, flag_of, int_of, range_of};
use crate::ffi::{ADLX_IntRange, Args, Method};
use crate::interface::{cast_done, query_interface, Interface, InterfaceImpl};
use crate::library::{took, Adlx, Call, REF_LIMIT};
use crate::result::Error;

verus! {

/// The handle of the setting of a GPU for the target frame rate.
#[derive(Debug)]
pub struct ThreeDFrameRateTargetControl(InterfaceImpl);

impl Interface for ThreeDFrameRateTargetControl {
    const IID: &'static str = "IADLX3DFrameRateTargetControl";

    open spec fn iid() -> Seq<char> {
        "IADLX3DFrameRateTargetControl"@
    }

    fn interface_id() -> (iid: &'static str) {
        Self::IID
    }

    closed spec fn raw(&self) -> usize {
        self.0.raw()
    }

    fn from_raw(raw: usize) -> (handle: Self) {
        ThreeDFrameRateTargetControl(InterfaceImpl::from_raw(raw))
    }

    fn as_raw(&self) -> (raw: usize) {
        self.0.as_raw()
    }
}

impl ThreeDFrameRateTargetControl {
    /// Asks the object whether it also answers to the interface `I`. An
    /// error is the status of the call. See [`query_interface`].
    pub fn cast<I: Interface, L: Adlx>(&self, lib: &mut L) -> (r: Result<I, Error>)
        requires
            old(lib).inv(),
            old(lib).world().live(self.raw()),
            old(lib).world().refs(self.raw()) < REF_LIMIT,
        ensures
            final(lib).inv(),
            cast_done(old(lib), final(lib), self.raw(), r),
    {
        query_interface(lib, self.as_raw())
    }

    /// Takes one more reference to the object and returns the handle that
    /// owns it.
    pub fn clone<L: Adlx>(&self, lib: &mut L) -> (copy: Self)
        requires
            old(lib).inv(),
            old(lib).world().live(self.raw()),
            old(lib).world().refs(self.raw()) < REF_LIMIT,
        ensures
            final(lib).inv(),
            copy.raw() == self.raw(),
            final(lib).world() == old(lib).world().acquire(self.raw()),
            took(old(lib), final(lib), seq![Call::Acquire(self.raw())]),
    {
        ThreeDFrameRateTargetControl(self.0.clone(lib))
    }

    /// Gives the reference of this handle up.
    pub fn drop<L: Adlx>(self, lib: &mut L)
        requires
            old(lib).inv(),
            old(lib).world().live(self.raw()),
        ensures
            final(lib).inv(),
            final(lib).world() == old(lib).world().release(self.raw()),
            took(old(lib), final(lib), seq![Call::Release(self.raw())]),
    {
        self.0.drop(lib)
    }

    /// Whether the GPU can hold a target frame rate.
    ///
    /// Calls `IsSupported` of `IADLX3DFrameRateTargetControl`.
    pub fn is_supported<L: Adlx>(&self, lib: &mut L) -> (r: Result<bool, Error>)
        requires
            old(lib).inv(),
            old(lib).world().live(self.raw()),
        ensures
            final(lib).inv(),
            took(
                old(lib),
                final(lib),
                seq![Call::Invoke(self.raw(), Method::FrameRateIsSupported)],
            ),
            final(lib).world() == old(lib).world(),
            r == flag_of(
                old(lib).answer(self.raw(), Method::FrameRateIsSupported, Args::nothing()),
            ),
    {
        call_flag(lib, self.as_raw(), Method::FrameRateIsSupported)
    }

    /// Whether the target frame rate is switched on.
    ///
    /// Calls `IsEnabled` of `IADLX3DFrameRateTargetControl`.
    pub fn is_enabled<L: Adlx>(&self, lib: &mut L) -> (r: Result<bool, Error>)
        requires
            old(lib).inv(),
            old(lib).world().live(self.raw()),
        ensures
            final(lib).inv(),
            took(old(lib), final(lib), seq![Call::Invoke(self.raw(), Method::FrameRateIsEnabled)]),
            final(lib).world() == old(lib).world(),
            r == flag_of(old(lib).answer(self.raw(), Method::FrameRateIsEnabled, Args::nothing())),
    {
        call_flag(lib, self.as_raw(), Method::FrameRateIsEnabled)
    }

    /// The frame rates that the target can be set to.
    ///
    /// Calls `GetFPSRange` of `IADLX3DFrameRateTargetControl`.
    pub fn get_fps_range<L: Adlx>(&self, lib: &mut L) -> (r: Result<ADLX_IntRange, Error>)
        requires
            old(lib).inv(),
            old(lib).world().live(self.raw()),
        ensures
            final(lib).inv(),
            took(
                old(lib),
                final(lib),
                seq![Call::Invoke(self.raw(), Method::FrameRateGetFpsRange)],
            ),
            final(lib).world() == old(lib).world(),
            r == range_of(
                old(lib).answer(self.raw(), Method::FrameRateGetFpsRange, Args::nothing()),
            ),
    {
        call_range(lib, self.as_raw(), Method::FrameRateGetFpsRange)
    }

    /// The target frame rate.
    ///
    /// Calls `GetFPS` of `IADLX3DFrameRateTargetControl`.
    pub fn get_fps<L: Adlx>(&self, lib: &mut L) -> (r: Result<i32, Error>)
        requires
            old(lib).inv(),
            old(lib).world().live(self.raw()),
        ensures
            final(lib).inv(),
            took(old(lib), final(lib), seq![Call::Invoke(self.raw(), Method::FrameRateGetFps)]),
            final(lib).world() == old(lib).world(),
            r == int_of(old(lib).answer(self.raw(), Method::FrameRateGetFps, Args::nothing())),
    {
        call_int(lib, self.as_raw(), Method::FrameRateGetFps)
    }
}

/// The setting of a GPU for the target frame rate, by its short name.
pub type FrameRateTargetControl = ThreeDFrameRateTargetControl;

} // verus!
