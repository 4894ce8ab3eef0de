//! Handles of foreign objects: ownership of one reference, and casting.
//!
//! A handle holds the address of one foreign object and stands for one
//! reference to it. Cloning a handle takes another reference, dropping it
//! gives the reference up, and casting asks the object at run time whether
//! it answers to another interface. A handle reaches the foreign library
//! through the [`Adlx`] that every operation takes; it cannot reach it by
//! itself. So a handle that goes out of scope gives nothing up: hand it to
//! `drop` with the library instead.

use vstd::prelude::*;
use crate::list::pass;
use crate::library::{lemma_acquire_adopts, took, Adlx, Call, World, REF_LIMIT};
use crate::result::{Error, ADLX_RESULT_ADLX_OK};
use crate::wide::{encode_wide, wire_name};

verus! {

/// What every handle of a foreign interface provides.
///
/// An implementor holds nothing but one address, preferably as an
/// [`InterfaceImpl`], and names in `IID` the interface that its objects
/// answer to. Beside the items of this trait it offers `cast`, which asks
/// the object for another interface, and `drop`.
pub trait Interface: Sized {
    /// The identity of the interface.
    const IID: &'static str;

    /// The identity of the interface, for contracts.
    spec fn iid() -> Seq<char>;

    /// The identity of the interface: `IID`, for a caller that knows the
    /// interface as a type parameter only.
    fn interface_id() -> (iid: &'static str)
        ensures
            iid@ == Self::iid(),
    ;

    /// The address of the foreign object.
    spec fn raw(&self) -> usize;

    /// Takes over a reference that a foreign call has handed out.
    ///
    /// The address must not be null. That the object is alive, that the
    /// reference is the caller's to give, and that the object answers to
    /// this interface cannot be seen from the address: where the handle is
    /// used, its operations ask for them.
    fn from_raw(raw: usize) -> (handle: Self)
        requires
            raw != 0,
        ensures
            handle.raw() == raw,
    ;

    /// The address of the object. The handle keeps its reference.
    fn as_raw(&self) -> (raw: usize)
        ensures
            raw == self.raw(),
    ;

    /// Ends the handle without giving its reference up, and returns the
    /// address: the reference is now the caller's to pass on or to release.
    fn into_raw(self) -> (raw: usize)
        ensures
            raw == self.raw(),
    {
        self.as_raw()
    }
}

/// The name under which the foreign library knows the interface `I`.
pub open spec fn identity<I: Interface>() -> Seq<u16> {
    wire_name(I::iid())
}

/// Whether the handle is what it claims to be in `world`: its object is
/// alive and answers to the interface of the handle.
pub open spec fn genuine<I: Interface>(handle: &I, world: World) -> bool {
    world.live(handle.raw()) && world.exposes(handle.raw(), identity::<I>())
}

/// What a cast of the object at `raw` comes to where the library answers
/// it with `status`: on the left the address that the new handle holds, or
/// the status as an error; on the right the world after the cast. A cast
/// that succeeds yields one more reference to the same object; one that
/// fails changes nothing.
pub open spec fn cast_outcome(world: World, raw: usize, status: i32) -> (
    Result<usize, Error>,
    World,
) {
    if status == ADLX_RESULT_ADLX_OK {
        (Ok(raw), world.acquire(raw))
    } else {
        (Err(Error(status)), world)
    }
}

/// The address in the handle of a result, or the error.
pub open spec fn handle_in<I: Interface>(r: Result<I, Error>) -> Result<usize, Error> {
    match r {
        Ok(handle) => Ok(handle.raw()),
        Err(e) => Err(e),
    }
}

/// Whether `r` is what one cast of the object at `raw` to the interface
/// `I` comes to, made in the state `before` and leaving the state `after`.
/// The library is asked once. Its status decides: success gives a handle
/// of its own, with a reference of its own, to the same object; any other
/// status comes back as the error, and nothing has changed. The library
/// answers with success exactly where the object answers to the interface.
pub open spec fn cast_done<I: Interface, L: Adlx>(
    before: &L,
    after: &L,
    raw: usize,
    r: Result<I, Error>,
) -> bool {
    let status = before.query_answer(raw, identity::<I>());
    &&& r is Ok <==> status == ADLX_RESULT_ADLX_OK
    &&& status == ADLX_RESULT_ADLX_OK <==> before.world().exposes(raw, identity::<I>())
    &&& handle_in(r) == cast_outcome(before.world(), raw, status).0
    &&& after.world() == cast_outcome(before.world(), raw, status).1
    &&& r matches Ok(handle) ==> genuine(&handle, after.world())
    &&& took(before, after, seq![Call::QueryInterface(raw)])
}

/// Asks the object at `raw` whether it answers to the interface `I`, once.
/// If so, the result is a handle of its own, with a reference of its own,
/// to the same object. If not, the result is the status of the call, and
/// nothing has changed.
pub fn query_interface<I: Interface, L: Adlx>(lib: &mut L, raw: usize) -> (r: Result<I, Error>)
    requires
        old(lib).inv(),
        old(lib).world().live(raw),
        old(lib).world().refs(raw) < REF_LIMIT,
    ensures
        final(lib).inv(),
        cast_done(old(lib), final(lib), raw, r),
{
    let interface_name = encode_wide(I::interface_id());
    let reply = lib.query_interface(raw, &interface_name);
    assert(lib.taken() =~= old(lib).taken() + seq![Call::QueryInterface(raw)]);
    match Error::from_result(reply.0) {
        Ok(()) => {
            proof {
                lemma_acquire_adopts(old(lib).world(), raw, identity::<I>());
            }
            Ok(I::from_raw(reply.1))
        },
        Err(e) => Err(e),
    }
}

/// The handle that owns one reference to a foreign object and knows it only
/// as the base interface. The handles of all other interfaces are built on
/// this one.
#[derive(Debug)]
pub struct InterfaceImpl(usize);

impl Interface for InterfaceImpl {
    const IID: &'static str = "IADLXInterface";

    open spec fn iid() -> Seq<char> {
        "IADLXInterface"@
    }

    fn interface_id() -> (iid: &'static str) {
        Self::IID
    }

    closed spec fn raw(&self) -> usize {
        self.0
    }

    fn from_raw(raw: usize) -> (handle: Self) {
        InterfaceImpl(raw)
    }

    fn as_raw(&self) -> (raw: usize) {
        self.0
    }
}

impl InterfaceImpl {
    /// Asks the object whether it also answers to the interface `I`. An
    /// error is the status of the call. See [`query_interface`].
    pub fn cast<I: Interface, L: Adlx>(&self, lib: &mut L) -> (r: Result<I, Error>)
        requires
            old(lib).inv(),
            old(lib).world().live(self.raw()),
            old(lib).world().refs(self.raw()) < REF_LIMIT,
        ensures
            final(lib).inv(),
            cast_done(old(lib), final(lib), self.raw(), r),
    {
        query_interface(lib, self.0)
    }

    /// Gives the reference of this handle up.
    pub fn drop<L: Adlx>(self, lib: &mut L)
        requires
            old(lib).inv(),
            old(lib).world().live(self.raw()),
        ensures
            final(lib).inv(),
            final(lib).world() == old(lib).world().release(self.raw()),
            took(old(lib), final(lib), seq![Call::Release(self.raw())]),
    {
        let _rc = lib.release(self.0);
        assert(lib.taken() =~= old(lib).taken() + seq![Call::Release(self.0)]);
    }

    /// Takes one more reference to the object and returns the handle that
    /// owns it.
    pub fn clone<L: Adlx>(&self, lib: &mut L) -> (copy: Self)
        requires
            old(lib).inv(),
            old(lib).world().live(self.raw()),
            old(lib).world().refs(self.raw()) < REF_LIMIT,
        ensures
            final(lib).inv(),
            copy.raw() == self.raw(),
            final(lib).world() == old(lib).world().acquire(self.raw()),
            took(old(lib), final(lib), seq![Call::Acquire(self.raw())]),
    {
        let _rc = lib.acquire(self.0);
        assert(lib.taken() =~= old(lib).taken() + seq![Call::Acquire(self.0)]);
        InterfaceImpl(self.0)
    }
}

/// A handle is nothing but its address: two that hold the same address are
/// the same handle.
pub proof fn lemma_same_address(a: InterfaceImpl, b: InterfaceImpl)
    requires
        a.raw() == b.raw(),
    ensures
        a == b,
{
}

/// A cast of a genuine handle to its own interface succeeds, and the new
/// handle holds the same object, with a reference of its own.
pub proof fn lemma_cast_to_self<I: Interface, L: Adlx>(
    before: &L,
    after: &L,
    handle: &I,
    r: Result<I, Error>,
)
    requires
        genuine(handle, before.world()),
        cast_done(before, after, handle.raw(), r),
    ensures
        r is Ok,
        r->Ok_0.raw() == handle.raw(),
        after.world() == before.world().acquire(handle.raw()),
{
}

/// A cast to an interface that the object does not answer to fails with
/// the status of the call, returns no handle and leaves the world as it
/// was.
pub proof fn lemma_cast_to_unrelated<I: Interface, L: Adlx>(
    before: &L,
    after: &L,
    raw: usize,
    r: Result<I, Error>,
)
    requires
        !before.world().exposes(raw, identity::<I>()),
        cast_done(before, after, raw, r),
    ensures
        r == Err::<I, Error>(Error(before.query_answer(raw, identity::<I>()))),
        before.query_answer(raw, identity::<I>()) != ADLX_RESULT_ADLX_OK,
        after.world() == before.world(),
{
}

} // verus!
