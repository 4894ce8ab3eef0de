//! The handle of the services that look after the displays.

use vstd::prelude::*;
use crate::call::{address_of, call_object};
use crate::display::Display;
use crate::display_free_sync::DisplayFreeSync;
use crate::display_list::DisplayList;
use crate::ffi::{Args, Method};
use crate::interface::{cast_done, handle_in, identity, query_interface, Interface, InterfaceImpl};
use crate::library::{took, Adlx, Call, REF_LIMIT};
use crate::result::Error;

verus! {

/// The handle of the services that look after the displays.
#[derive(Debug)]
pub struct DisplayServices(InterfaceImpl);

impl Interface for DisplayServices {
    const IID: &'static str = "IADLXDisplayServices";

    open spec fn iid() -> Seq<char> {
        "IADLXDisplayServices"@
    }

    fn interface_id() -> (iid: &'static str) {
        Self::IID
    }

    closed spec fn raw(&self) -> usize {
        self.0.raw()
    }

    fn from_raw(raw: usize) -> (handle: Self) {
        DisplayServices(InterfaceImpl::from_raw(raw))
    }

    fn as_raw(&self) -> (raw: usize) {
        self.0.as_raw()
    }
}

impl DisplayServices {
    /// Asks the object whether it also answers to the interface `I`. An
    /// error is the status of the call. See [`query_interface`].
    pub fn cast<I: Interface, L: Adlx>(&self, lib: &mut L) -> (r: Result<I, Error>)
        requires
            old(lib).inv(),
            old(lib).world().live(self.raw()),
            old(lib).world().refs(self.raw()) < REF_LIMIT,
        ensures
            final(lib).inv(),
            cast_done(old(lib), final(lib), self.raw(), r),
    {
        query_interface(lib, self.as_raw())
    }

    /// Takes one more reference to the object and returns the handle that
    /// owns it.
    pub fn clone<L: Adlx>(&self, lib: &mut L) -> (copy: Self)
        requires
            old(lib).inv(),
            old(lib).world().live(self.raw()),
            old(lib).world().refs(self.raw()) < REF_LIMIT,
        ensures
            final(lib).inv(),
            copy.raw() == self.raw(),
            final(lib).world() == old(lib).world().acquire(self.raw()),
            took(old(lib), final(lib), seq![Call::Acquire(self.raw())]),
    {
        DisplayServices(self.0.clone(lib))
    }

    /// Gives the reference of this handle up.
    pub fn drop<L: Adlx>(self, lib: &mut L)
        requires
            old(lib).inv(),
            old(lib).world().live(self.raw()),
        ensures
            final(lib).inv(),
            final(lib).world() == old(lib).world().release(self.raw()),
            took(old(lib), final(lib), seq![Call::Release(self.raw())]),
    {
        self.0.drop(lib)
    }

    /// The FreeSync setting of `display`.
    ///
    /// Calls `GetFreeSync` of `IADLXDisplayServices`.
    pub fn get_free_sync<L: Adlx>(
        &self,
        lib: &mut L,
        display: &Display,
    ) -> (r: Result<DisplayFreeSync, Error>)
        requires
            old(lib).inv(),
            old(lib).world().live(self.raw()),
            old(lib).world().live(display.raw()),
        ensures
            final(lib).inv(),
            took(
                old(lib),
                final(lib),
                seq![Call::Invoke(self.raw(), Method::DisplayServicesGetFreeSync)],
            ),
            handle_in(r) == address_of(
                old(lib).answer(
                    self.raw(), Method::DisplayServicesGetFreeSync, Args::of_object(display.raw()),
                ),
            ),
            r matches Ok(handle) ==> final(lib).world().adopted(
                old(lib).world(),
                handle.raw(),
                identity::<DisplayFreeSync>(),
            ),
            r is Err ==> final(lib).world() == old(lib).world(),
    {
        call_object(
            lib, self.as_raw(), Method::DisplayServicesGetFreeSync, Args::object(display.as_raw()),
        )
    }

    /// The list of the displays.
    ///
    /// Calls `GetDisplays` of `IADLXDisplayServices`.
    pub fn get_displays<L: Adlx>(&self, lib: &mut L) -> (r: Result<DisplayList, Error>)
        requires
            old(lib).inv(),
            old(lib).world().live(self.raw()),
        ensures
            final(lib).inv(),
            took(
                old(lib),
                final(lib),
                seq![Call::Invoke(self.raw(), Method::DisplayServicesGetDisplays)],
            ),
            handle_in(r) == address_of(
                old(lib).answer(self.raw(), Method::DisplayServicesGetDisplays, Args::nothing()),
            ),
            r matches Ok(handle) ==> final(lib).world().adopted(
                old(lib).world(),
                handle.raw(),
                identity::<DisplayList>(),
            ),
            r is Err ==> final(lib).world() == old(lib).world(),
    {
        call_object(lib, self.as_raw(), Method::DisplayServicesGetDisplays, Args::none())
    }
}

/// The services that look after the displays, under the name that the
/// root object hands them out by.
pub type DisplaysServices = DisplayServices;

} // verus!
