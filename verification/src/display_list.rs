//! The handle of a list of displays, and a pass over it.

use vstd::prelude::*;
use crate::display::Display;
use crate::ffi::Method;
use crate::interface::{cast_done, identity, query_interface, Interface};
use crate::library::{took, Adlx, Call, REF_LIMIT};
use crate::list::{
    all_genuine, at_done, element_at, follow, has_room, holds_only, lemma_same_list, pass,
    pass_calls, pass_outcome, step, step_done, List,
};
use crate::result::Error;

verus! {

/// The handle of a list of displays.
#[derive(Debug)]
pub struct DisplayList(List);

impl Interface for DisplayList {
    const IID: &'static str = "IADLXDisplayList";

    open spec fn iid() -> Seq<char> {
        "IADLXDisplayList"@
    }

    fn interface_id() -> (iid: &'static str) {
        Self::IID
    }

    closed spec fn raw(&self) -> usize {
        self.0.raw()
    }

    fn from_raw(raw: usize) -> (handle: Self) {
        DisplayList(List::from_raw(raw))
    }

    fn as_raw(&self) -> (raw: usize) {
        self.0.as_raw()
    }
}

impl core::ops::Deref for DisplayList {
    type Target = List;

    /// The same object, as the interface that this one extends knows it.
    fn deref(&self) -> (base: &List)
        ensures
            *base == self.base(),
            base.raw() == self.raw(),
    {
        &self.0
    }
}

impl DisplayList {
    /// The handle of the base interface that this handle is built on.
    pub closed spec fn base(&self) -> List {
        self.0
    }

    /// Asks the object whether it also answers to the interface `I`. An
    /// error is the status of the call. See [`query_interface`].
    pub fn cast<I: Interface, L: Adlx>(&self, lib: &mut L) -> (r: Result<I, Error>)
        requires
            old(lib).inv(),
            old(lib).world().live(self.raw()),
            old(lib).world().refs(self.raw()) < REF_LIMIT,
        ensures
            final(lib).inv(),
            cast_done(old(lib), final(lib), self.raw(), r),
    {
        query_interface(lib, self.as_raw())
    }

    /// Takes one more reference to the object and returns the handle that
    /// owns it.
    pub fn clone<L: Adlx>(&self, lib: &mut L) -> (copy: Self)
        requires
            old(lib).inv(),
            old(lib).world().live(self.raw()),
            old(lib).world().refs(self.raw()) < REF_LIMIT,
        ensures
            final(lib).inv(),
            copy.raw() == self.raw(),
            final(lib).world() == old(lib).world().acquire(self.raw()),
            took(old(lib), final(lib), seq![Call::Acquire(self.raw())]),
    {
        DisplayList(self.0.clone(lib))
    }

    /// Gives the reference of this handle up.
    pub fn drop<L: Adlx>(self, lib: &mut L)
        requires
            old(lib).inv(),
            old(lib).world().live(self.raw()),
        ensures
            final(lib).inv(),
            final(lib).world() == old(lib).world().release(self.raw()),
            took(old(lib), final(lib), seq![Call::Release(self.raw())]),
    {
        self.0.drop(lib)
    }

    /// The display at `location`, with a reference of its own. An index at
    /// or past the size of the list gives an error, which is the status of
    /// the call.
    ///
    /// Calls `At_DisplayList` of `IADLXDisplayList`.
    pub fn at<L: Adlx>(&self, lib: &mut L, location: u32) -> (r: Result<Display, Error>)
        requires
            old(lib).inv(),
            old(lib).world().live(self.raw()),
            old(lib).world().has_room_at(self.raw(), location),
        ensures
            final(lib).inv(),
            at_done(old(lib), final(lib), self.raw(), Method::DisplayListAt, location, r),
    {
        element_at(lib, self.as_raw(), Method::DisplayListAt, location)
    }

    /// A pass over the list that starts at its first element.
    pub fn iter(&self) -> (pass: DisplayIterator<'_>)
        ensures
            pass.list() == self.raw(),
            pass.position() == 0,
    {
        DisplayIterator { list: self, i: 0 }
    }
}

/// A pass over a list of displays, one element at a time and forward only. The
/// pass looks at the list as it is at each step: it does not notice, and
/// does not mind, if the list has changed since the step before.
pub struct DisplayIterator<'a> {
    list: &'a DisplayList,
    i: u32,
}

impl<'a> DisplayIterator<'a> {
    /// The address of the list that the pass goes over.
    pub closed spec fn list(&self) -> usize {
        self.list.raw()
    }

    /// The index of the element that the pass yields next.
    pub closed spec fn position(&self) -> u32 {
        self.i
    }

    /// The next display of the list, with a reference of its own, or `None` where
    /// the list hands out nothing at the position of the pass. The step
    /// asks the list for its size, and for the element only below the size.
    pub fn next<L: Adlx>(&mut self, lib: &mut L) -> (r: Option<Display>)
        requires
            old(lib).inv(),
            old(lib).world().live(old(self).list()),
            old(lib).world().has_room_at(old(self).list(), old(self).position()),
        ensures
            final(lib).inv(),
            final(self).list() == old(self).list(),
            step_done(
                old(lib),
                final(lib),
                old(self).list(),
                old(self).position(),
                final(self).position(),
                r,
            ),
    {
        step(lib, self.list.as_raw(), Method::DisplayListAt, &mut self.i)
    }

    /// The number of elements that the list holds now.
    pub fn len<L: Adlx>(&self, lib: &mut L) -> (len: usize)
        requires
            old(lib).inv(),
            old(lib).world().live(self.list()),
        ensures
            final(lib).inv(),
            final(lib).world() == old(lib).world(),
            len == old(lib).world().items(self.list()).len(),
            took(old(lib), final(lib), seq![Call::Size(self.list())]),
    {
        self.list.size(lib) as usize
    }

    /// Runs the pass to its end and returns what it yields: one handle for
    /// each element that the list hands out from the position of the pass
    /// on, in the order of the list, each with a reference of its own.
    /// Where every element of the list can be handed out, that is one
    /// handle for each element from the position on.
    pub fn collect<L: Adlx>(self, lib: &mut L) -> (handles: Vec<Display>)
        requires
            old(lib).inv(),
            old(lib).world().live(self.list()),
            has_room(old(lib).world(), self.list(), self.position()),
        ensures
            final(lib).inv(),
            handles@.len() == pass_outcome(
                old(lib).world(),
                self.list(),
                self.position(),
                identity::<Display>(),
            ).0,
            final(lib).world() == pass_outcome(
                old(lib).world(),
                self.list(),
                self.position(),
                identity::<Display>(),
            ).1,
            took(
                old(lib),
                final(lib),
                pass_calls(old(lib).world(), self.list(), self.position(), identity::<Display>()),
            ),
            final(lib).world().items(self.list()) == old(lib).world().items(self.list()),
            follow(handles@, old(lib).world().items(self.list()), self.position()),
            all_genuine(handles@, final(lib).world()),
            holds_only(old(lib).world(), self.list(), identity::<Display>()) && self.position()
                <= old(lib).world().items(self.list()).len() ==> handles@.len() + self.position()
                == old(lib).world().items(self.list()).len(),
    {
        pass(lib, self.list.as_raw(), Method::DisplayListAt, self.i)
    }
}

/// What a [`DisplayList`] gives for its base interface is the very handle
/// that one would make for the base interface from the same address: an
/// operation of the base interface cannot tell the two apart.
pub proof fn lemma_display_list_delegates(derived: DisplayList, direct: List)
    requires
        direct.raw() == derived.raw(),
    ensures
        derived.base() == direct,
{
    lemma_same_list(derived.0, direct);
}

} // verus!
