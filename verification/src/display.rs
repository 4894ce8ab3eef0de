//! The handle of a display.

use vstd::prelude::*;
use crate::call::{address_of, call_object};
use crate::ffi::{Args, Method};
use crate::gpu::Gpu;
use crate::interface::{cast_done, handle_in, identity, query_interface, Interface, InterfaceImpl};
use crate::library::{took, Adlx, Call, REF_LIMIT};
use crate::result::Error;

verus! {

/// The handle of one display.
#[derive(Debug)]
pub struct Display(InterfaceImpl);

impl Interface for Display {
    const IID: &'static str = "IADLXDisplay";

    open spec fn iid() -> Seq<char> {
        "IADLXDisplay"@
    }

    fn interface_id() -> (iid: &'static str) {
        Self::IID
    }

    closed spec fn raw(&self) -> usize {
        self.0.raw()
    }

    fn from_raw(raw: usize) -> (handle: Self) {
        Display(InterfaceImpl::from_raw(raw))
    }

    fn as_raw(&self) -> (raw: usize) {
        self.0.as_raw()
    }
}

impl Display {
    /// Asks the object whether it also answers to the interface `I`. An
    /// error is the status of the call. See [`query_interface`].
    pub fn cast<I: Interface, L: Adlx>(&self, lib: &mut L) -> (r: Result<I, Error>)
        requires
            old(lib).inv(),
            old(lib).world().live(self.raw()),
            old(lib).world().refs(self.raw()) < REF_LIMIT,
        ensures
            final(lib).inv(),
            cast_done(old(lib), final(lib), self.raw(), r),
    {
        query_interface(lib, self.as_raw())
    }

    /// Takes one more reference to the object and returns the handle that
    /// owns it.
    pub fn clone<L: Adlx>(&self, lib: &mut L) -> (copy: Self)
        requires
            old(lib).inv(),
            old(lib).world().live(self.raw()),
            old(lib).world().refs(self.raw()) < REF_LIMIT,
        ensures
            final(lib).inv(),
            copy.raw() == self.raw(),
            final(lib).world() == old(lib).world().acquire(self.raw()),
            took(old(lib), final(lib), seq![Call::Acquire(self.raw())]),
    {
        Display(self.0.clone(lib))
    }

    /// Gives the reference of this handle up.
    pub fn drop<L: Adlx>(self, lib: &mut L)
        requires
            old(lib).inv(),
            old(lib).world().live(self.raw()),
        ensures
            final(lib).inv(),
            final(lib).world() == old(lib).world().release(self.raw()),
            took(old(lib), final(lib), seq![Call::Release(self.raw())]),
    {
        self.0.drop(lib)
    }

    /// The GPU that drives the display.
    ///
    /// Calls `GetGPU` of `IADLXDisplay`.
    pub fn get_gpu<L: Adlx>(&self, lib: &mut L) -> (r: Result<Gpu, Error>)
        requires
            old(lib).inv(),
            old(lib).world().live(self.raw()),
        ensures
            final(lib).inv(),
            took(old(lib), final(lib), seq![Call::Invoke(self.raw(), Method::DisplayGetGpu)]),
            handle_in(r) == address_of(
                old(lib).answer(self.raw(), Method::DisplayGetGpu, Args::nothing()),
            ),
            r matches Ok(handle) ==> final(lib).world().adopted(
                old(lib).world(),
                handle.raw(),
                identity::<Gpu>(),
            ),
            r is Err ==> final(lib).world() == old(lib).world(),
    {
        call_object(lib, self.as_raw(), Method::DisplayGetGpu, Args::none())
    }
}

} // verus!
