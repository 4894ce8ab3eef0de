//! Lists of foreign objects: their size, their elements, and a pass over
//! them.
//!
//! The foreign library gives no snapshot of a list. Its size may differ
//! from one call to the next where something else changes the list in
//! between, so a pass over a list sees the list as it is at each step.

use vstd::prelude::*;
use crate::ffi::Method;
use crate::interface::{
    cast_done, genuine, identity, lemma_same_address, query_interface, Interface, InterfaceImpl,
};
use crate::library::{lemma_acquire_adopts, took, Adlx, Call, World, REF_LIMIT};
use crate::result::{outcome, Error, ADLX_RESULT_ADLX_OK};

verus! {

/// The handle of a list of objects, whatever the interface of its elements.
#[derive(Debug)]
pub struct List(InterfaceImpl);

impl Interface for List {
    const IID: &'static str = "IADLXList";

    open spec fn iid() -> Seq<char> {
        "IADLXList"@
    }

    fn interface_id() -> (iid: &'static str) {
        Self::IID
    }

    closed spec fn raw(&self) -> usize {
        self.0.raw()
    }

    fn from_raw(raw: usize) -> (handle: Self) {
        List(InterfaceImpl::from_raw(raw))
    }

    fn as_raw(&self) -> (raw: usize) {
        self.0.as_raw()
    }
}

impl List {
    /// The number of elements that the list holds now.
    ///
    /// Calls `Size` of `IADLXList`.
    pub fn size<L: Adlx>(&self, lib: &mut L) -> (size: u32)
        requires
            old(lib).inv(),
            old(lib).world().live(self.raw()),
        ensures
            final(lib).inv(),
            final(lib).world() == old(lib).world(),
            size == old(lib).world().items(self.raw()).len(),
            took(old(lib), final(lib), seq![Call::Size(self.raw())]),
    {
        let size = lib.list_size(self.as_raw());
        assert(lib.taken() =~= old(lib).taken() + seq![Call::Size(self.raw())]);
        size
    }

    /// Asks the object whether it also answers to the interface `I`. An
    /// error is the status of the call. See [`query_interface`].
    pub fn cast<I: Interface, L: Adlx>(&self, lib: &mut L) -> (r: Result<I, Error>)
        requires
            old(lib).inv(),
            old(lib).world().live(self.raw()),
            old(lib).world().refs(self.raw()) < REF_LIMIT,
        ensures
            final(lib).inv(),
            cast_done(old(lib), final(lib), self.raw(), r),
    {
        query_interface(lib, self.as_raw())
    }

    /// Takes one more reference to the object and returns the handle that
    /// owns it.
    pub fn clone<L: Adlx>(&self, lib: &mut L) -> (copy: Self)
        requires
            old(lib).inv(),
            old(lib).world().live(self.raw()),
            old(lib).world().refs(self.raw()) < REF_LIMIT,
        ensures
            final(lib).inv(),
            copy.raw() == self.raw(),
            final(lib).world() == old(lib).world().acquire(self.raw()),
            took(old(lib), final(lib), seq![Call::Acquire(self.raw())]),
    {
        List(self.0.clone(lib))
    }

    /// Gives the reference of this handle up.
    pub fn drop<L: Adlx>(self, lib: &mut L)
        requires
            old(lib).inv(),
            old(lib).world().live(self.raw()),
        ensures
            final(lib).inv(),
            final(lib).world() == old(lib).world().release(self.raw()),
            took(old(lib), final(lib), seq![Call::Release(self.raw())]),
    {
        self.0.drop(lib)
    }
}

/// What asking a list for its element at `index` comes to, for elements of
/// the interface called `name`: on the left the address of the element, if
/// the list hands one out; on the right the world after the call. The list
/// hands out an element exactly for an index below its size, and with it
/// one more reference to that element.
pub open spec fn at_outcome(world: World, list: usize, index: u32, name: Seq<u16>) -> (
    Option<usize>,
    World,
) {
    if world.offers(list, index, name) {
        (Some(world.items(list)[index as int]), world.acquire(world.items(list)[index as int]))
    } else {
        (None, world)
    }
}

/// The address in the handle that a list has handed out, if it has handed
/// out one.
pub open spec fn element_in<I: Interface>(r: Result<I, Error>) -> Option<usize> {
    match r {
        Ok(handle) => Some(handle.raw()),
        Err(_) => None,
    }
}

/// The address in the handle that a step of a pass has yielded, if it has
/// yielded one.
pub open spec fn yielded<I: Interface>(r: Option<I>) -> Option<usize> {
    match r {
        Some(handle) => Some(handle.raw()),
        None => None,
    }
}

/// The position of a pass after a step from `position`: one further where
/// the step has yielded an element, the same where it has not.
pub open spec fn position_after(position: u32, yielded: Option<usize>) -> int {
    if yielded is Some {
        position + 1
    } else {
        position as int
    }
}

/// What a pass over the list comes to that starts at `position`, for
/// elements of the interface called `name`: on the left the number of
/// elements that the list hands out, one after the other, until it hands
/// out nothing; on the right the world after the pass, with one more
/// reference to each of these elements.
pub open spec fn pass_outcome(world: World, list: usize, position: u32, name: Seq<u16>) -> (
    nat,
    World,
)
    decreases u32::MAX - position,
{
    if position < u32::MAX && at_outcome(world, list, position, name).0 is Some {
        let rest = pass_outcome(
            at_outcome(world, list, position, name).1,
            list,
            (position + 1) as u32,
            name,
        );
        (rest.0 + 1, rest.1)
    } else {
        (0, world)
    }
}

/// The calls that one step of a pass takes at `position`: the list is
/// asked for its size, and for its element where the position lies below
/// the size.
pub open spec fn step_calls(world: World, list: usize, position: u32) -> Seq<Call> {
    if position < world.items(list).len() {
        seq![Call::Size(list), Call::At(list, position)]
    } else {
        seq![Call::Size(list)]
    }
}

/// The calls that a pass over the list takes that starts at `position`:
/// those of one step after the other, up to and with the step at which the
/// list hands out nothing.
pub open spec fn pass_calls(world: World, list: usize, position: u32, name: Seq<u16>) -> Seq<Call>
    decreases u32::MAX - position,
{
    if position < u32::MAX && at_outcome(world, list, position, name).0 is Some {
        step_calls(world, list, position) + pass_calls(
            at_outcome(world, list, position, name).1,
            list,
            (position + 1) as u32,
            name,
        )
    } else {
        step_calls(world, list, position)
    }
}

/// Whether `r` is what asking the list at `list` once for its element at
/// `location` comes to, through the slot `method` whose elements are of
/// the interface `I`, in the state `before` and leaving the state `after`.
/// The status of the call decides: success gives a handle with a
/// reference of its own to the element, any other status comes back as
/// the error, and nothing has changed. The library answers with success
/// exactly where the list hands the element out.
pub open spec fn at_done<I: Interface, L: Adlx>(
    before: &L,
    after: &L,
    list: usize,
    method: Method,
    location: u32,
    r: Result<I, Error>,
) -> bool {
    let status = before.at_answer(list, method, location);
    &&& r is Ok <==> status == ADLX_RESULT_ADLX_OK
    &&& r matches Err(e) ==> e == Error(status)
    &&& element_in(r) == at_outcome(before.world(), list, location, identity::<I>()).0
    &&& after.world() == at_outcome(before.world(), list, location, identity::<I>()).1
    &&& r matches Ok(handle) ==> genuine(&handle, after.world())
    &&& took(before, after, seq![Call::At(list, location)])
}

/// Whether `r` is what one step of a pass over the list at `list` comes
/// to, from the position `from` to the position `to`, in the state
/// `before` and leaving the state `after`.
pub open spec fn step_done<I: Interface, L: Adlx>(
    before: &L,
    after: &L,
    list: usize,
    from: u32,
    to: u32,
    r: Option<I>,
) -> bool {
    &&& yielded(r) == at_outcome(before.world(), list, from, identity::<I>()).0
    &&& after.world() == at_outcome(before.world(), list, from, identity::<I>()).1
    &&& to == position_after(from, yielded(r))
    &&& r matches Some(handle) ==> genuine(&handle, after.world())
    &&& took(before, after, step_calls(before.world(), list, from))
}

/// Whether every element of the list can be handed out under the interface
/// called `name`.
pub open spec fn holds_only(world: World, list: usize, name: Seq<u16>) -> bool {
    forall|index: u32| index < world.items(list).len() ==> #[trigger] world.offers(
        list, index, name,
    )
}

/// Whether each element of the list can take as many more references as
/// the list has elements from `from` on.
pub open spec fn has_room(world: World, list: usize, from: u32) -> bool {
    forall|index: int|
        0 <= index < world.items(list).len() ==> world.refs(#[trigger] world.items(list)[index])
            + (world.items(list).len() - from) <= REF_LIMIT
}

/// Whether `handles` hold the elements of `items` from `position` on, one
/// after the other, as far as they go.
pub open spec fn follow<I: Interface>(handles: Seq<I>, items: Seq<usize>, position: u32) -> bool {
    &&& handles.len() > 0 ==> position + handles.len() <= items.len()
    &&& forall|k: int|
        0 <= k < handles.len() ==> (#[trigger] handles[k]).raw() == items[position + k]
}

/// Whether all of `handles` are genuine in `world`.
pub open spec fn all_genuine<I: Interface>(handles: Seq<I>, world: World) -> bool {
    forall|k: int| 0 <= k < handles.len() ==> genuine(&#[trigger] handles[k], world)
}

/// Asks the list at `raw` once for its element at `location`, through the
/// slot `method` whose elements are of the interface `I`. The handle that
/// comes back owns a reference of its own. An index at or past the size of
/// the list gives an error, which is the status of the call.
pub fn element_at<I: Interface, L: Adlx>(
    lib: &mut L,
    raw: usize,
    method: Method,
    location: u32,
) -> (r: Result<I, Error>)
    requires
        old(lib).inv(),
        old(lib).world().live(raw),
        old(lib).world().has_room_at(raw, location),
        method.yields() == Some(I::iid()),
    ensures
        final(lib).inv(),
        at_done(old(lib), final(lib), raw, method, location, r),
{
    let reply = lib.list_at(raw, method, location);
    assert(lib.taken() =~= old(lib).taken() + seq![Call::At(raw, location)]);
    match Error::from_result_with_assume_init_on_success(reply.0, reply.1) {
        Ok(address) => {
            proof {
                lemma_acquire_adopts(old(lib).world(), address, identity::<I>());
            }
            Ok(I::from_raw(address))
        },
        Err(e) => Err(e),
    }
}

/// Appends `item` to the list at `raw` through the slot `method`. The
/// result is the status with which the library answers the call. The
/// handle is used up either way; on success its reference is now the
/// list's, and a failed call changes nothing.
pub fn append<I: Interface, L: Adlx>(
    lib: &mut L,
    raw: usize,
    method: Method,
    item: I,
) -> (r: Result<(), Error>)
    requires
        old(lib).inv(),
        old(lib).world().live(raw),
        old(lib).world().live(item.raw()),
    ensures
        final(lib).inv(),
        r == outcome(old(lib).add_back_answer(raw, method, item.raw()), ()),
        took(old(lib), final(lib), seq![Call::AddBack(raw, item.raw())]),
        r is Ok ==> final(lib).world() == old(lib).world().give(raw, item.raw()),
        r is Err ==> final(lib).world() == old(lib).world(),
{
    let ghost address = item.raw();
    let status = lib.list_add_back(raw, method, item.into_raw());
    assert(lib.taken() =~= old(lib).taken() + seq![Call::AddBack(raw, address)]);
    Error::from_result(status)
}

/// One step of a pass over the list at `raw`: the element at `*position`,
/// if the list hands one out, and then the position moves on by one. The
/// pass is over where the list hands out nothing. The step asks the list
/// for its size, and for the element only below the size.
pub fn step<I: Interface, L: Adlx>(
    lib: &mut L,
    raw: usize,
    method: Method,
    position: &mut u32,
) -> (r: Option<I>)
    requires
        old(lib).inv(),
        old(lib).world().live(raw),
        old(lib).world().has_room_at(raw, *old(position)),
        method.yields() == Some(I::iid()),
    ensures
        final(lib).inv(),
        step_done(old(lib), final(lib), raw, *old(position), *final(position), r),
{
    let size = lib.list_size(raw);
    if *position < size {
        let found = element_at::<I, L>(lib, raw, method, *position);
        assert(lib.taken() =~= old(lib).taken() + seq![
            Call::Size(raw),
            Call::At(raw, *old(position)),
        ]);
        match found {
            Ok(handle) => {
                *position = *position + 1;
                Some(handle)
            },
            Err(_) => None,
        }
    } else {
        assert(lib.taken() =~= old(lib).taken() + seq![Call::Size(raw)]);
        None
    }
}

/// A whole pass over the list at `raw`, from `position` on. The pass yields
/// one handle for each element that the list hands out, in the order of
/// the list, and ends where the list hands out nothing; each handle owns a
/// reference of its own. Where every element can be handed out, that is
/// one handle for each element from `position` to the end.
pub fn pass<I: Interface, L: Adlx>(
    lib: &mut L,
    raw: usize,
    method: Method,
    position: u32,
) -> (handles: Vec<I>)
    requires
        old(lib).inv(),
        old(lib).world().live(raw),
        has_room(old(lib).world(), raw, position),
        method.yields() == Some(I::iid()),
    ensures
        final(lib).inv(),
        handles@.len() == pass_outcome(old(lib).world(), raw, position, identity::<I>()).0,
        final(lib).world() == pass_outcome(old(lib).world(), raw, position, identity::<I>()).1,
        took(
            old(lib),
            final(lib),
            pass_calls(old(lib).world(), raw, position, identity::<I>()),
        ),
        final(lib).world().items(raw) == old(lib).world().items(raw),
        follow(handles@, old(lib).world().items(raw), position),
        all_genuine(handles@, final(lib).world()),
        holds_only(old(lib).world(), raw, identity::<I>()) && position <= old(lib).world().items(
            raw,
        ).len() ==> handles@.len() + position == old(lib).world().items(raw).len(),
{
    let mut handles: Vec<I> = Vec::new();
    let mut at: u32 = position;
    let ghost start = lib.world();
    let ghost items = lib.world().items(raw);
    let ghost mut so_far_taken = Seq::<Call>::empty();
    proof {
        assert(lib.taken() =~= old(lib).taken() + so_far_taken);
        assert(so_far_taken + pass_calls(start, raw, position, identity::<I>()) =~= pass_calls(
            start,
            raw,
            position,
            identity::<I>(),
        ));
    }
    loop
        invariant_except_break
            lib.taken() == old(lib).taken() + so_far_taken,
            pass_calls(start, raw, position, identity::<I>()) == so_far_taken + pass_calls(
                lib.world(),
                raw,
                at,
                identity::<I>(),
            ),
        invariant
            lib.inv(),
            lib.world().live(raw),
            method.yields() == Some(I::iid()),
            start == old(lib).world(),
            items == start.items(raw),
            lib.world().items(raw) == items,
            has_room(lib.world(), raw, at),
            position <= at,
            position <= items.len() ==> at <= items.len(),
            handles@.len() == at - position,
            follow(handles@, items, position),
            all_genuine(handles@, lib.world()),
            pass_outcome(start, raw, position, identity::<I>()).0 == handles@.len() + pass_outcome(
                lib.world(),
                raw,
                at,
                identity::<I>(),
            ).0,
            pass_outcome(start, raw, position, identity::<I>()).1 == pass_outcome(
                lib.world(),
                raw,
                at,
                identity::<I>(),
            ).1,
            forall|index: u32|
                index < items.len() ==> (#[trigger] lib.world().offers(raw, index, identity::<I>())
                    == start.offers(raw, index, identity::<I>())),
        ensures
            holds_only(start, raw, identity::<I>()) && position <= items.len() ==> at
                == items.len(),
            pass_outcome(start, raw, position, identity::<I>()) == (handles@.len(), lib.world()),
            lib.taken() == old(lib).taken() + pass_calls(start, raw, position, identity::<I>()),
        decreases u32::MAX - at,
    {
        let ghost before = lib.world();
        let ghost was = at;
        let ghost so_far = handles@;
        let ghost taken_before = lib.taken();
        let ghost this_step = step_calls(before, raw, at);
        proof {
            if at < items.len() {
                assert(before.refs(before.items(raw)[at as int]) + (items.len() - at) <= REF_LIMIT);
            }
        }
        match step::<I, L>(lib, raw, method, &mut at) {
            Some(handle) => {
                proof {
                    let item = items[was as int];
                    assert(was < u32::MAX);
                    assert(lib.taken() == taken_before + this_step);
                    assert(pass_calls(before, raw, was, identity::<I>()) == this_step + pass_calls(
                        lib.world(),
                        raw,
                        at,
                        identity::<I>(),
                    ));
                    assert(so_far_taken + (this_step + pass_calls(
                        lib.world(),
                        raw,
                        at,
                        identity::<I>(),
                    )) =~= (so_far_taken + this_step) + pass_calls(
                        lib.world(),
                        raw,
                        at,
                        identity::<I>(),
                    ));
                    assert(lib.taken() =~= old(lib).taken() + (so_far_taken + this_step));
                    so_far_taken = so_far_taken + this_step;
                    assert(pass_outcome(before, raw, was, identity::<I>()) == (
                        pass_outcome(lib.world(), raw, at, identity::<I>()).0 + 1,
                        pass_outcome(lib.world(), raw, at, identity::<I>()).1,
                    ));
                    assert(before.offers(raw, was, identity::<I>()));
                    assert(lib.world() == before.acquire(item));
                    assert(lib.world().items(raw) =~= items);
                    assert forall|index: int| 0 <= index < items.len() implies lib.world().refs(
                        #[trigger] lib.world().items(raw)[index],
                    ) + (items.len() - at) <= REF_LIMIT by {
                        assert(before.refs(before.items(raw)[index]) + (items.len() - was)
                            <= REF_LIMIT);
                    }
                    assert forall|index: u32| index < items.len() implies (
                    #[trigger] lib.world().offers(raw, index, identity::<I>()) == start.offers(
                        raw,
                        index,
                        identity::<I>(),
                    )) by {
                        assert(before.offers(raw, index, identity::<I>()) == start.offers(
                            raw,
                            index,
                            identity::<I>(),
                        ));
                    }
                    assert forall|k: int| 0 <= k < so_far.len() implies genuine(
                        &#[trigger] so_far[k],
                        lib.world(),
                    ) by {
                        assert(genuine(&so_far[k], before));
                    }
                }
                handles.push(handle);
            },
            None => {
                proof {
                    assert(lib.world() == before);
                    assert(pass_outcome(before, raw, at, identity::<I>()) == (0nat, before));
                    assert(pass_calls(before, raw, at, identity::<I>()) == this_step);
                    assert(lib.taken() =~= old(lib).taken() + (so_far_taken + this_step));
                    if holds_only(start, raw, identity::<I>()) && position <= items.len() {
                        if at < items.len() {
                            assert(start.offers(raw, at, identity::<I>()));
                            assert(before.offers(raw, at, identity::<I>()));
                        }
                    }
                }
                break ;
            },
        }
    }
    handles
}

/// A list whose elements can all be handed out hands out an element for
/// every index below its size, and for no other index.
pub proof fn lemma_at_succeeds_below_size(world: World, list: usize, index: u32, name: Seq<u16>)
    requires
        holds_only(world, list, name),
    ensures
        index < world.items(list).len() ==> at_outcome(world, list, index, name) == (
            Some(world.items(list)[index as int]),
            world.acquire(world.items(list)[index as int]),
        ),
        index >= world.items(list).len() ==> at_outcome(world, list, index, name) == (
            None::<usize>,
            world,
        ),
{
    if index < world.items(list).len() {
        assert(world.offers(list, index, name));
    }
}

/// A handle is nothing but its address: two that hold the same address are
/// the same handle.
pub proof fn lemma_same_list(a: List, b: List)
    requires
        a.raw() == b.raw(),
    ensures
        a == b,
{
    lemma_same_address(a.0, b.0);
}

} // verus!
