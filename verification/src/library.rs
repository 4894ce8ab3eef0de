//! The foreign library as this crate sees it.
//!
//! Objects of the foreign library live on its side of the boundary and are
//! named by their addresses. What the handles of this crate rely on is a
//! small model of them, the [`World`]: for each object the number of
//! references that callers hold, the interfaces it answers to, and, for a
//! list, its elements. The trait [`Adlx`] states for every call what it does
//! to that model. The contracts of the handles are proved from these
//! statements and from nothing else; an implementation of the trait that
//! binds the real library takes them on as its obligations.

use vstd::prelude::*;
use crate::ffi::{Args, EntryPoint, Method, Reply};
use crate::result::ADLX_RESULT_ADLX_OK;
use crate::wide::{spelled, wire_name};

verus! {

/// The highest count of references that one object can carry: the library
/// counts in a signed 32-bit number.
pub const REF_LIMIT: i32 = 0x7fff_ffff;

/// The identity of the root object that initialize hands out.
pub open spec fn system_iid() -> Seq<char> {
    "IADLXSystem"@
}

/// One call into the foreign library.
#[derive(Clone, Copy, Debug, PartialEq, Eq, Structural)]
pub enum Call {
    /// A reference to the object was taken.
    Acquire(usize),
    /// A reference to the object was given up.
    Release(usize),
    /// The object was asked for an interface.
    QueryInterface(usize),
    /// The list was asked for its size.
    Size(usize),
    /// The list was asked for its element at an index.
    At(usize, u32),
    /// The second object was appended to the list.
    AddBack(usize, usize),
    /// A slot was called on the object.
    Invoke(usize, Method),
    /// An entry point of the shared library was called.
    Entry(EntryPoint),
    /// The text at the address was read.
    ReadText(usize),
}

/// One foreign object, as far as the handles depend on it.
pub struct Object {
    /// How many references to the object callers hold. The object stays
    /// alive at least as long as this is not zero.
    pub refs: nat,
    /// The names of the interfaces that the object answers to.
    pub interfaces: Set<Seq<u16>>,
    /// The elements of the object, in order, where the object is a list.
    pub items: Seq<usize>,
}

/// The foreign objects that the library knows, by address.
pub struct World {
    pub objects: Map<usize, Object>,
}

impl World {
    /// A world without objects.
    pub open spec fn empty() -> World {
        World { objects: Map::empty() }
    }

    pub open spec fn contains(self, object: usize) -> bool {
        self.objects.dom().contains(object)
    }

    /// The number of references to `object` that callers hold.
    pub open spec fn refs(self, object: usize) -> nat {
        if self.contains(object) {
            self.objects[object].refs
        } else {
            0
        }
    }

    /// Whether `object` may be called: it is not null and some caller holds
    /// a reference to it.
    pub open spec fn live(self, object: usize) -> bool {
        object != 0 && self.refs(object) > 0
    }

    /// Whether `object` answers to the interface called `name`.
    pub open spec fn exposes(self, object: usize, name: Seq<u16>) -> bool {
        self.contains(object) && self.objects[object].interfaces.contains(name)
    }

    /// The elements of the list `object`.
    pub open spec fn items(self, object: usize) -> Seq<usize> {
        if self.contains(object) {
            self.objects[object].items
        } else {
            Seq::empty()
        }
    }

    /// Whether the list holds at `index` an object that can be handed out
    /// under the interface called `name`.
    pub open spec fn offers(self, list: usize, index: u32, name: Seq<u16>) -> bool {
        &&& index < self.items(list).len()
        &&& self.items(list)[index as int] != 0
        &&& self.exposes(self.items(list)[index as int], name)
    }

    /// Whether the element of the list at `index`, if there is one, can take
    /// one more reference.
    pub open spec fn has_room_at(self, list: usize, index: u32) -> bool {
        index < self.items(list).len() ==> self.refs(self.items(list)[index as int]) < REF_LIMIT
    }

    /// This world with one more reference to `object`.
    pub open spec fn acquire(self, object: usize) -> World {
        World {
            objects: self.objects.insert(
                object,
                Object { refs: self.objects[object].refs + 1, ..self.objects[object] },
            ),
        }
    }

    /// This world with one reference to `object` given up.
    pub open spec fn release(self, object: usize) -> World {
        World {
            objects: self.objects.insert(
                object,
                Object { refs: (self.objects[object].refs - 1) as nat, ..self.objects[object] },
            ),
        }
    }

    /// This world after a caller has handed its reference to `item` over to
    /// the list, which now holds `item` as its last element.
    pub open spec fn give(self, list: usize, item: usize) -> World {
        let handed = self.release(item);
        World {
            objects: handed.objects.insert(
                list,
                Object { items: handed.objects[list].items.push(item), ..handed.objects[list] },
            ),
        }
    }

    /// Whether this world is `before` with one new reference to `object`,
    /// handed out under the interface called `name`. The object may be new
    /// to the world; nothing else differs.
    pub open spec fn adopted(self, before: World, object: usize, name: Seq<u16>) -> bool {
        &&& self.live(object)
        &&& self.exposes(object, name)
        &&& self.refs(object) == before.refs(object) + 1
        &&& before.contains(object) ==> self == before.acquire(object)
        &&& self.objects.remove(object) == before.objects.remove(object)
    }
}

/// The foreign library: its entry points and the function tables of its
/// objects.
///
/// A call that only reads takes `&mut self` all the same: it runs foreign
/// code, and what the library would answer to the next call is not known
/// from what it answered to this one. Each answer is therefore stated for
/// the state in which the call is made.
///
/// The functions of the model come with bodies that say nothing. An
/// implementation that keeps its objects in this process, like the fake
/// library of this crate, gives them bodies of its own and is verified
/// against the contracts. An implementation that binds the real library
/// leaves them alone: what they stand for is then on the far side of the
/// boundary, and the contracts are what the implementation answers for.
pub trait Adlx {
    /// What an implementation needs to hold of itself between calls.
    open spec fn inv(&self) -> bool {
        arbitrary()
    }

    /// The objects of the library.
    open spec fn world(&self) -> World {
        arbitrary()
    }

    /// The calls that the library has taken, in their order.
    open spec fn taken(&self) -> Seq<Call> {
        arbitrary()
    }

    /// What the library answers, in this state, to a call of `method` on
    /// `object`.
    open spec fn answer(&self, object: usize, method: Method, args: Args) -> Reply {
        arbitrary()
    }

    /// The text that the library hands out, in this state, for a call of
    /// `method` on `object`.
    open spec fn text_answer(&self, object: usize, method: Method, args: Args) -> Seq<char> {
        arbitrary()
    }

    /// What the library answers, in this state, to a call of an entry point.
    open spec fn entry_answer(&self, point: EntryPoint, version: u64) -> Reply {
        arbitrary()
    }

    /// The text of the version that the library reports in this state.
    open spec fn version_text(&self) -> Seq<char> {
        arbitrary()
    }

    /// The status with which the library answers, in this state, to a call
    /// that asks `object` for the interface called `name`.
    open spec fn query_answer(&self, object: usize, name: Seq<u16>) -> i32 {
        arbitrary()
    }

    /// The status with which the library answers, in this state, to a call
    /// that asks `list` for its element at `index` through the slot
    /// `method`.
    open spec fn at_answer(&self, list: usize, method: Method, index: u32) -> i32 {
        arbitrary()
    }

    /// The status with which the library answers, in this state, to a call
    /// that appends `item` to `list` through the slot `method`.
    open spec fn add_back_answer(&self, list: usize, method: Method, item: usize) -> i32 {
        arbitrary()
    }

    /// The text that stands at `address`, if one does.
    open spec fn text_at(&self, address: usize) -> Option<Seq<char>> {
        arbitrary()
    }

    /// Takes one more reference to `object` and returns the new count.
    fn acquire(&mut self, object: usize) -> (count: i32)
        requires
            old(self).inv(),
            old(self).world().live(object),
            old(self).world().refs(object) < REF_LIMIT,
        ensures
            final(self).inv(),
            final(self).taken() == old(self).taken().push(Call::Acquire(object)),
            final(self).world() == old(self).world().acquire(object),
    ;

    /// Gives up one reference to `object` and returns the new count.
    fn release(&mut self, object: usize) -> (count: i32)
        requires
            old(self).inv(),
            old(self).world().live(object),
        ensures
            final(self).inv(),
            final(self).taken() == old(self).taken().push(Call::Release(object)),
            final(self).world() == old(self).world().release(object),
    ;

    /// Asks `object` for the interface that `iid` spells. Where the object
    /// answers to it, the call succeeds and the caller gets a new reference
    /// to the same object; where not, the call fails, with the status that
    /// the library chooses, and nothing changes.
    fn query_interface(&mut self, object: usize, iid: &Vec<u16>) -> (reply: (i32, usize))
        requires
            old(self).inv(),
            old(self).world().live(object),
            old(self).world().refs(object) < REF_LIMIT,
            iid@.len() > 0,
            iid@.last() == 0,
        ensures
            final(self).inv(),
            final(self).taken() == old(self).taken().push(Call::QueryInterface(object)),
            reply.0 == old(self).query_answer(object, spelled(iid@)),
            old(self).world().exposes(object, spelled(iid@)) ==> {
                &&& reply == (ADLX_RESULT_ADLX_OK, object)
                &&& final(self).world() == old(self).world().acquire(object)
            },
            !old(self).world().exposes(object, spelled(iid@)) ==> {
                &&& reply.0 != ADLX_RESULT_ADLX_OK
                &&& final(self).world() == old(self).world()
            },
    ;

    /// The number of elements of a list.
    fn list_size(&mut self, list: usize) -> (size: u32)
        requires
            old(self).inv(),
            old(self).world().live(list),
        ensures
            final(self).inv(),
            final(self).taken() == old(self).taken().push(Call::Size(list)),
            final(self).world() == old(self).world(),
            size == old(self).world().items(list).len(),
    ;

    /// Hands out the element of a list at `index`, with a new reference,
    /// through the slot `method`. The call fails for an index at or past
    /// the size of the list, and changes nothing then.
    fn list_at(&mut self, list: usize, method: Method, index: u32) -> (reply: (i32, usize))
        requires
            old(self).inv(),
            old(self).world().live(list),
            method.yields() is Some,
            old(self).world().has_room_at(list, index),
        ensures
            final(self).inv(),
            final(self).taken() == old(self).taken().push(Call::At(list, index)),
            reply.0 == old(self).at_answer(list, method, index),
            old(self).world().offers(list, index, wire_name(method.yields()->0)) ==> {
                &&& reply == (ADLX_RESULT_ADLX_OK, old(self).world().items(list)[index as int])
                &&& final(self).world() == old(self).world().acquire(reply.1)
            },
            !old(self).world().offers(list, index, wire_name(method.yields()->0)) ==> {
                &&& reply.0 != ADLX_RESULT_ADLX_OK
                &&& final(self).world() == old(self).world()
            },
    ;

    /// Appends `item` to a list through the slot `method`. On success the
    /// list has taken over the caller's reference to the item; a failed
    /// call changes nothing.
    fn list_add_back(&mut self, list: usize, method: Method, item: usize) -> (status: i32)
        requires
            old(self).inv(),
            old(self).world().live(list),
            old(self).world().live(item),
        ensures
            final(self).inv(),
            final(self).taken() == old(self).taken().push(Call::AddBack(list, item)),
            status == old(self).add_back_answer(list, method, item),
            status == ADLX_RESULT_ADLX_OK ==> final(self).world() == old(self).world().give(
                list,
                item,
            ),
            status != ADLX_RESULT_ADLX_OK ==> final(self).world() == old(self).world(),
    ;

    /// Calls `method` on `object`. A slot that hands out an object gives the
    /// caller a new reference to it on success; no other call touches the
    /// objects. A slot that hands out a text leaves the text readable at the
    /// address it returns.
    fn invoke(&mut self, object: usize, method: Method, args: Args) -> (reply: Reply)
        requires
            old(self).inv(),
            old(self).world().live(object),
            args.object != 0 ==> old(self).world().live(args.object),
        ensures
            final(self).inv(),
            final(self).taken() == old(self).taken().push(Call::Invoke(object, method)),
            reply == old(self).answer(object, method, args),
            if method.yields() is Some && reply.status == ADLX_RESULT_ADLX_OK {
                final(self).world().adopted(
                    old(self).world(),
                    reply.out.ptr,
                    wire_name(method.yields()->0),
                )
            } else {
                final(self).world() == old(self).world()
            },
            method.yields_text() && reply.status == ADLX_RESULT_ADLX_OK ==> final(self).text_at(
                reply.out.ptr,
            ) == Some(old(self).text_answer(object, method, args)),
    ;

    /// Calls an entry point of the shared library. `version` is what
    /// initialize passes, in any of its variants; the other entry points
    /// take nothing. A successful initialize hands out the root object, and
    /// after a successful terminate no object is left. No other call
    /// touches the objects. To ask for a version changes nothing in what
    /// the entry points answer.
    fn call_entry(&mut self, point: EntryPoint, version: u64) -> (reply: Reply)
        requires
            old(self).inv(),
        ensures
            final(self).inv(),
            final(self).taken() == old(self).taken().push(Call::Entry(point)),
            reply == old(self).entry_answer(point, version),
            if reply.status != ADLX_RESULT_ADLX_OK {
                final(self).world() == old(self).world()
            } else if point.starts() {
                final(self).world().adopted(
                    old(self).world(),
                    reply.out.ptr,
                    wire_name(system_iid()),
                )
            } else if point == EntryPoint::Terminate {
                final(self).world() == World::empty()
            } else {
                final(self).world() == old(self).world()
            },
            point == EntryPoint::QueryVersion && reply.status == ADLX_RESULT_ADLX_OK
                ==> final(self).text_at(reply.out.ptr) == Some(old(self).version_text()),
            point == EntryPoint::QueryFullVersion || point == EntryPoint::QueryVersion ==> {
                &&& forall|other: EntryPoint, passed: u64|
                    final(self).entry_answer(other, passed) == old(self).entry_answer(
                        other,
                        passed,
                    )
                &&& final(self).version_text() == old(self).version_text()
            },
    ;

    /// Reads the text at `address`. Reading changes nothing in what the
    /// entry points answer.
    fn read_text(&mut self, address: usize) -> (text: String)
        requires
            old(self).inv(),
            old(self).text_at(address) is Some,
        ensures
            final(self).inv(),
            final(self).taken() == old(self).taken().push(Call::ReadText(address)),
            final(self).world() == old(self).world(),
            text@ == old(self).text_at(address)->0,
            forall|point: EntryPoint, version: u64|
                final(self).entry_answer(point, version) == old(self).entry_answer(point, version),
            final(self).version_text() == old(self).version_text(),
    ;
}

/// Whether the library has taken, between the states `before` and `after`,
/// exactly `calls`, in this order.
pub open spec fn took<L: Adlx>(before: &L, after: &L, calls: Seq<Call>) -> bool {
    after.taken() == before.taken() + calls
}

/// Whether the entry points of the library answer in the state `after` as
/// they do in the state `before`, the text of the version included.
pub open spec fn same_entries<L: Adlx>(after: &L, before: &L) -> bool {
    &&& forall|point: EntryPoint, version: u64|
        after.entry_answer(point, version) == before.entry_answer(point, version)
    &&& after.version_text() == before.version_text()
}

/// Taking one more reference to an object and giving it up again leaves the
/// world as it was.
pub proof fn lemma_release_undoes_acquire(world: World, object: usize)
    requires
        world.contains(object),
    ensures
        world.acquire(object).release(object) == world,
{
    let after = world.acquire(object).release(object);
    assert(after.objects =~= world.objects);
}

/// Giving up the reference that a call has handed out brings the count of
/// the object back to what it was before the call; and where the object was
/// there before the call, the whole world is as it was.
pub proof fn lemma_release_undoes_adoption(
    before: World,
    after: World,
    object: usize,
    name: Seq<u16>,
)
    requires
        after.adopted(before, object, name),
    ensures
        after.release(object).refs(object) == before.refs(object),
        before.contains(object) ==> after.release(object) == before,
{
    if before.contains(object) {
        lemma_release_undoes_acquire(before, object);
    }
}

/// A reference taken on top of a live object keeps the object live when one
/// of the two is given up, whichever goes first; and when both are given up
/// the count is one less than at the start.
pub proof fn lemma_two_references(world: World, object: usize)
    requires
        world.live(object),
    ensures
        world.acquire(object).release(object).live(object),
        world.acquire(object).release(object).release(object) == world.release(object),
        world.acquire(object).release(object).release(object).refs(object) == world.refs(object)
            - 1,
{
    lemma_release_undoes_acquire(world, object);
}

/// One more reference to an object that the world holds, and that answers
/// to an interface, is a reference handed out under that interface.
pub proof fn lemma_acquire_adopts(world: World, object: usize, name: Seq<u16>)
    requires
        object != 0,
        world.exposes(object, name),
    ensures
        world.acquire(object).adopted(world, object, name),
{
    let after = world.acquire(object);
    assert(after.objects.remove(object) =~= world.objects.remove(object));
}

/// Acquire and release change the count of one object and nothing else.
pub proof fn lemma_counts(world: World, object: usize, other: usize)
    requires
        world.contains(object),
    ensures
        world.acquire(object).refs(object) == world.refs(object) + 1,
        world.refs(object) > 0 ==> world.release(object).refs(object) == world.refs(object) - 1,
        other != object ==> world.acquire(object).refs(other) == world.refs(other),
        other != object ==> world.release(object).refs(other) == world.refs(other),
        forall|name: Seq<u16>|
            world.acquire(object).exposes(other, name) == world.exposes(other, name),
        forall|name: Seq<u16>|
            world.release(object).exposes(other, name) == world.exposes(other, name),
        world.acquire(object).items(other) == world.items(other),
        world.release(object).items(other) == world.items(other),
{
}

} // verus!
