//! The handle of a list of GPUs, and a pass over it.

use vstd::prelude::*;
use crate::ffi::Method;
use crate::gpu::Gpu;
use crate::interface::{cast_done, identity, query_interface, Interface};
use crate::library::{took, Adlx, Call, REF_LIMIT};
use crate::list::{
    all_genuine, append, at_done, element_at, follow, has_room, holds_only, lemma_same_list, pass,
    pass_calls, pass_outcome, step, step_done, List,
};
use crate::result::{outcome, Error};

verus! {

/// The handle of a list of GPUs.
#[derive(Debug)]
pub struct GpuList(List);

impl Interface for GpuList {
    const IID: &'static str = "IADLXGPUList";

    open spec fn iid() -> Seq<char> {
        "IADLXGPUList"@
    }

    fn interface_id() -> (iid: &'static str) {
        Self::IID
    }

    closed spec fn raw(&self) -> usize {
        self.0.raw()
    }

    fn from_raw(raw: usize) -> (handle: Self) {
        GpuList(List::from_raw(raw))
    }

    fn as_raw(&self) -> (raw: usize) {
        self.0.as_raw()
    }
}

impl core::ops::Deref for GpuList {
    type Target = List;

    /// The same object, as the interface that this one extends knows it.
    fn deref(&self) -> (base: &List)
        ensures
            *base == self.base(),
            base.raw() == self.raw(),
    {
        &self.0
    }
}

impl GpuList {
    /// The handle of the base interface that this handle is built on.
    pub closed spec fn base(&self) -> List {
        self.0
    }

    /// Asks the object whether it also answers to the interface `I`. An
    /// error is the status of the call. See [`query_interface`].
    pub fn cast<I: Interface, L: Adlx>(&self, lib: &mut L) -> (r: Result<I, Error>)
        requires
            old(lib).inv(),
            old(lib).world().live(self.raw()),
            old(lib).world().refs(self.raw()) < REF_LIMIT,
        ensures
            final(lib).inv(),
            cast_done(old(lib), final(lib), self.raw(), r),
    {
        query_interface(lib, self.as_raw())
    }

    /// Gives the reference of this handle up.
    pub fn drop<L: Adlx>(self, lib: &mut L)
        requires
            old(lib).inv(),
            old(lib).world().live(self.raw()),
        ensures
            final(lib).inv(),
            final(lib).world() == old(lib).world().release(self.raw()),
            took(old(lib), final(lib), seq![Call::Release(self.raw())]),
    {
        self.0.drop(lib)
    }

    /// The GPU at `location`, with a reference of its own. An index at or
    /// past the size of the list gives an error, which is the status of the
    /// call.
    ///
    /// Calls `At_GPUList` of `IADLXGPUList`.
    pub fn at<L: Adlx>(&self, lib: &mut L, location: u32) -> (r: Result<Gpu, Error>)
        requires
            old(lib).inv(),
            old(lib).world().live(self.raw()),
            old(lib).world().has_room_at(self.raw(), location),
        ensures
            final(lib).inv(),
            at_done(old(lib), final(lib), self.raw(), Method::GpuListAt, location, r),
    {
        element_at(lib, self.as_raw(), Method::GpuListAt, location)
    }

    /// Appends a GPU to the list. The result is the status with which the
    /// library answers the call. The handle is used up either way; on
    /// success its reference is now the list's.
    ///
    /// Calls `Add_Back_GPUList` of `IADLXGPUList`.
    pub fn add_back<L: Adlx>(&self, lib: &mut L, gpu: Gpu) -> (r: Result<(), Error>)
        requires
            old(lib).inv(),
            old(lib).world().live(self.raw()),
            old(lib).world().live(gpu.raw()),
        ensures
            final(lib).inv(),
            r == outcome(
                old(lib).add_back_answer(self.raw(), Method::GpuListAddBack, gpu.raw()),
                (),
            ),
            took(old(lib), final(lib), seq![Call::AddBack(self.raw(), gpu.raw())]),
            r is Ok ==> final(lib).world() == old(lib).world().give(self.raw(), gpu.raw()),
            r is Err ==> final(lib).world() == old(lib).world(),
    {
        append(lib, self.as_raw(), Method::GpuListAddBack, gpu)
    }

    /// A pass over the list that starts at its first element.
    pub fn iter(&self) -> (pass: GpuIterator<'_>)
        ensures
            pass.list() == self.raw(),
            pass.position() == 0,
    {
        GpuIterator { list: self, i: 0 }
    }
}

/// A pass over a list of GPUs, one element at a time and forward only. The
/// pass looks at the list as it is at each step: it does not notice, and
/// does not mind, if the list has changed since the step before.
pub struct GpuIterator<'a> {
    list: &'a GpuList,
    i: u32,
}

impl<'a> GpuIterator<'a> {
    /// The address of the list that the pass goes over.
    pub closed spec fn list(&self) -> usize {
        self.list.raw()
    }

    /// The index of the element that the pass yields next.
    pub closed spec fn position(&self) -> u32 {
        self.i
    }

    /// The next GPU of the list, with a reference of its own, or `None` where
    /// the list hands out nothing at the position of the pass. The step
    /// asks the list for its size, and for the element only below the size.
    pub fn next<L: Adlx>(&mut self, lib: &mut L) -> (r: Option<Gpu>)
        requires
            old(lib).inv(),
            old(lib).world().live(old(self).list()),
            old(lib).world().has_room_at(old(self).list(), old(self).position()),
        ensures
            final(lib).inv(),
            final(self).list() == old(self).list(),
            step_done(
                old(lib),
                final(lib),
                old(self).list(),
                old(self).position(),
                final(self).position(),
                r,
            ),
    {
        step(lib, self.list.as_raw(), Method::GpuListAt, &mut self.i)
    }

    /// The number of elements that the list holds now.
    pub fn len<L: Adlx>(&self, lib: &mut L) -> (len: usize)
        requires
            old(lib).inv(),
            old(lib).world().live(self.list()),
        ensures
            final(lib).inv(),
            final(lib).world() == old(lib).world(),
            len == old(lib).world().items(self.list()).len(),
            took(old(lib), final(lib), seq![Call::Size(self.list())]),
    {
        self.list.size(lib) as usize
    }

    /// Runs the pass to its end and returns what it yields: one handle for
    /// each element that the list hands out from the position of the pass
    /// on, in the order of the list, each with a reference of its own.
    /// Where every element of the list can be handed out, that is one
    /// handle for each element from the position on.
    pub fn collect<L: Adlx>(self, lib: &mut L) -> (handles: Vec<Gpu>)
        requires
            old(lib).inv(),
            old(lib).world().live(self.list()),
            has_room(old(lib).world(), self.list(), self.position()),
        ensures
            final(lib).inv(),
            handles@.len() == pass_outcome(
                old(lib).world(),
                self.list(),
                self.position(),
                identity::<Gpu>(),
            ).0,
            final(lib).world() == pass_outcome(
                old(lib).world(),
                self.list(),
                self.position(),
                identity::<Gpu>(),
            ).1,
            took(
                old(lib),
                final(lib),
                pass_calls(old(lib).world(), self.list(), self.position(), identity::<Gpu>()),
            ),
            final(lib).world().items(self.list()) == old(lib).world().items(self.list()),
            follow(handles@, old(lib).world().items(self.list()), self.position()),
            all_genuine(handles@, final(lib).world()),
            holds_only(old(lib).world(), self.list(), identity::<Gpu>()) && self.position()
                <= old(lib).world().items(self.list()).len() ==> handles@.len() + self.position()
                == old(lib).world().items(self.list()).len(),
    {
        pass(lib, self.list.as_raw(), Method::GpuListAt, self.i)
    }
}

/// What a [`GpuList`] gives for its base interface is the very handle that
/// one would make for the base interface from the same address: an
/// operation of the base interface cannot tell the two apart.
pub proof fn lemma_gpu_list_delegates(derived: GpuList, direct: List)
    requires
        direct.raw() == derived.raw(),
    ensures
        derived.base() == direct,
{
    lemma_same_list(derived.0, direct);
}

} // verus!
