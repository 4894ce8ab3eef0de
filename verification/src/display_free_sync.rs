//! The handle of the FreeSync setting of a display.

use vstd::prelude::*;
use crate::call::{call_flag, flag_of};
use crate::ffi::{Args, Method};
use crate::interface::{cast_done, query_interface, Interface, InterfaceImpl};
use crate::library::{took, Adlx, Call, REF_LIMIT};
use crate::result::Error;

verus! {

/// The handle of the FreeSync setting of a display.
#[derive(Debug)]
pub struct DisplayFreeSync(InterfaceImpl);

impl Interface for DisplayFreeSync {
    const IID: &'static str = "IADLXDisplayFreeSync";

    open spec fn iid() -> Seq<char> {
        "IADLXDisplayFreeSync"@
    }

    fn interface_id() -> (iid: &'static str) {
        Self::IID
    }

    closed spec fn raw(&self) -> usize {
        self.0.raw()
    }

    fn from_raw(raw: usize) -> (handle: Self) {
        DisplayFreeSync(InterfaceImpl::from_raw(raw))
    }

    fn as_raw(&self) -> (raw: usize) {
        self.0.as_raw()
    }
}

impl DisplayFreeSync {
    /// Asks the object whether it also answers to the interface `I`. An
    /// error is the status of the call. See [`query_interface`].
    pub fn cast<I: Interface, L: Adlx>(&self, lib: &mut L) -> (r: Result<I, Error>)
        requires
            old(lib).inv(),
            old(lib).world().live(self.raw()),
            old(lib).world().refs(self.raw()) < REF_LIMIT,
        ensures
            final(lib).inv(),
            cast_done(old(lib), final(lib), self.raw(), r),
    {
        query_interface(lib, self.as_raw())
    }

    /// Takes one more reference to the object and returns the handle that
    /// owns it.
    pub fn clone<L: Adlx>(&self, lib: &mut L) -> (copy: Self)
        requires
            old(lib).inv(),
            old(lib).world().live(self.raw()),
            old(lib).world().refs(self.raw()) < REF_LIMIT,
        ensures
            final(lib).inv(),
            copy.raw() == self.raw(),
            final(lib).world() == old(lib).world().acquire(self.raw()),
            took(old(lib), final(lib), seq![Call::Acquire(self.raw())]),
    {
        DisplayFreeSync(self.0.clone(lib))
    }

    /// Gives the reference of this handle up.
    pub fn drop<L: Adlx>(self, lib: &mut L)
        requires
            old(lib).inv(),
            old(lib).world().live(self.raw()),
        ensures
            final(lib).inv(),
            final(lib).world() == old(lib).world().release(self.raw()),
            took(old(lib), final(lib), seq![Call::Release(self.raw())]),
    {
        self.0.drop(lib)
    }

    /// Whether the display can do FreeSync.
    ///
    /// Calls `IsSupported` of `IADLXDisplayFreeSync`.
    pub fn is_supported<L: Adlx>(&self, lib: &mut L) -> (r: Result<bool, Error>)
        requires
            old(lib).inv(),
            old(lib).world().live(self.raw()),
        ensures
            final(lib).inv(),
            took(old(lib), final(lib), seq![Call::Invoke(self.raw(), Method::FreeSyncIsSupported)]),
            final(lib).world() == old(lib).world(),
            r == flag_of(old(lib).answer(self.raw(), Method::FreeSyncIsSupported, Args::nothing())),
    {
        call_flag(lib, self.as_raw(), Method::FreeSyncIsSupported)
    }

    /// Whether FreeSync is switched on.
    ///
    /// Calls `IsEnabled` of `IADLXDisplayFreeSync`.
    pub fn is_enabled<L: Adlx>(&self, lib: &mut L) -> (r: Result<bool, Error>)
        requires
            old(lib).inv(),
            old(lib).world().live(self.raw()),
        ensures
            final(lib).inv(),
            took(old(lib), final(lib), seq![Call::Invoke(self.raw(), Method::FreeSyncIsEnabled)]),
            final(lib).world() == old(lib).world(),
            r == flag_of(old(lib).answer(self.raw(), Method::FreeSyncIsEnabled, Args::nothing())),
    {
        call_flag(lib, self.as_raw(), Method::FreeSyncIsEnabled)
    }
}

} // verus!
