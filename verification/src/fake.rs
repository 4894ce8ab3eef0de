//! A stand-in for the foreign library that runs in this process.
//!
//! [`FakeAdlx`] keeps a table of objects with reference counts, interface
//! names, list elements and canned answers, and implements [`Adlx`] on it.
//! It shows that the contracts of the trait can be met, and it is what the
//! handles are exercised against where the real library is not at hand.
//!
//! The fake library gives the answers that were set for it, with two
//! exceptions that keep it within the contracts of [`Adlx`]. Where the
//! answer to a call would hand out an object, the object has to be there,
//! has to answer to the interface that the slot promises, and has to have
//! room for one more reference. Where it would hand out a text, the text
//! has to be there. A call whose answer does not pass fails as a call into
//! an invalid object.
//!
//! An object refuses an interface that it does not answer to with the
//! status that was set for refusals, which is the unknown-interface code
//! unless another is set.
//!
//! The fake library also keeps a record of the calls that it takes, in
//! their order, so that one can see afterwards what a handle has done.

use vstd::prelude::*;
use vstd::string::*;
use crate::ffi::{Args, EntryPoint, Method, Out, Reply};
pub use crate::library::Call;
use crate::library::{lemma_acquire_adopts, system_iid, Adlx, Object, World, REF_LIMIT};
use crate::result::{
    ADLX_RESULT_ADLX_FAIL, ADLX_RESULT_ADLX_INVALID_ARGS, ADLX_RESULT_ADLX_INVALID_OBJECT,
    ADLX_RESULT_ADLX_NOT_SUPPORTED, ADLX_RESULT_ADLX_OK, ADLX_RESULT_ADLX_UNKNOWN_INTERFACE,
};
use crate::wide::{encode_wide, same_name, spell, wire_name};

verus! {

/// An answer that a fake object gives to one call.
#[derive(Clone, Copy, Debug, PartialEq, Eq, Structural)]
pub struct Canned {
    pub method: Method,
    pub args: Args,
    pub reply: Reply,
}

/// The answer that a list of canned answers holds for a call: the one set
/// last, if any was set.
pub open spec fn canned_for(canned: Seq<Canned>, method: Method, args: Args) -> Option<Reply>
    decreases canned.len(),
{
    if canned.len() == 0 {
        None
    } else if canned.last().method == method && canned.last().args == args {
        Some(canned.last().reply)
    } else {
        canned_for(canned.drop_last(), method, args)
    }
}

/// A failed call: the status, and cells that hold nothing.
pub open spec fn failure(status: i32) -> Reply {
    Reply { status, out: Out::zero() }
}

/// A successful call that has filled the cell of an address.
pub open spec fn handed_out(address: usize) -> Reply {
    Reply { status: ADLX_RESULT_ADLX_OK, out: Out { ptr: address, ..Out::zero() } }
}

fn fail(status: i32) -> (reply: Reply)
    ensures
        reply == failure(status),
{
    Reply { status, out: Out::zeroed() }
}

fn hand_out(address: usize) -> (reply: Reply)
    ensures
        reply == handed_out(address),
{
    let mut out = Out::zeroed();
    out.ptr = address;
    Reply { status: ADLX_RESULT_ADLX_OK, out }
}

/// The set of names that a list of names holds.
spec fn names(interfaces: Seq<Vec<u16>>) -> Set<Seq<u16>> {
    Set::new(|name: Seq<u16>| exists|i: int| 0 <= i < interfaces.len() && interfaces[i]@ == name)
}

/// Adding a name to a list of names adds it to the set that the list holds.
proof fn lemma_names_push(interfaces: Seq<Vec<u16>>, name: Vec<u16>)
    ensures
        names(interfaces.push(name)) == names(interfaces).insert(name@),
{
    let longer = interfaces.push(name);
    assert forall|n: Seq<u16>| names(longer).contains(n) == names(interfaces).insert(
        name@,
    ).contains(n) by {
        if names(longer).contains(n) {
            let i = choose|i: int| 0 <= i < longer.len() && longer[i]@ == n;
            if i < interfaces.len() {
                assert(interfaces[i]@ == n);
            }
        }
        if names(interfaces).contains(n) {
            let i = choose|i: int| 0 <= i < interfaces.len() && interfaces[i]@ == n;
            assert(longer[i]@ == n);
        }
        if n == name@ {
            assert(longer[interfaces.len() as int]@ == n);
        }
    }
    assert(names(longer) =~= names(interfaces).insert(name@));
}

/// One object of the fake library.
struct FakeObject {
    refs: i32,
    interfaces: Vec<Vec<u16>>,
    items: Vec<usize>,
    canned: Vec<Canned>,
}

impl FakeObject {
    spec fn view(&self) -> Object {
        Object { refs: self.refs as nat, interfaces: names(self.interfaces@), items: self.items@ }
    }

    spec fn wf(&self) -> bool {
        &&& 0 <= self.refs <= REF_LIMIT
        &&& self.items@.len() <= u32::MAX
    }

    fn exposes(&self, name: &Vec<u16>) -> (found: bool)
        ensures
            found == self.view().interfaces.contains(name@),
    {
        let mut i: usize = 0;
        while i < self.interfaces.len()
            invariant
                i <= self.interfaces@.len(),
                forall|j: int| 0 <= j < i ==> self.interfaces@[j]@ != name@,
            decreases self.interfaces@.len() - i,
        {
            if same_name(&self.interfaces[i], name) {
                return true;
            }
            i = i + 1;
        }
        false
    }

    fn find(&self, method: Method, args: Args) -> (reply: Option<Reply>)
        ensures
            reply == canned_for(self.canned@, method, args),
    {
        let mut i: usize = self.canned.len();
        assert(self.canned@.take(i as int) =~= self.canned@);
        while i > 0
            invariant
                i <= self.canned@.len(),
                canned_for(self.canned@, method, args) == canned_for(
                    self.canned@.take(i as int),
                    method,
                    args,
                ),
            decreases i,
        {
            proof {
                assert(self.canned@.take(i as int).drop_last() =~= self.canned@.take(i - 1));
            }
            i = i - 1;
            let entry = self.canned[i];
            if entry.method == method && entry.args == args {
                return Some(entry.reply);
            }
        }
        None
    }
}

/// The fake library.
pub struct FakeAdlx {
    objects: Vec<FakeObject>,
    texts: Vec<String>,
    full_version: Reply,
    version: Reply,
    initialize: Reply,
    terminate: Reply,
    root: usize,
    refusal: i32,
    calls: Vec<Call>,
}

impl FakeAdlx {
    spec fn has(&self, object: usize) -> bool {
        1 <= object <= self.objects@.len()
    }

    /// The answers that were set for `object`, in the order in which they
    /// were set; none for an address without an object.
    pub closed spec fn canned_of(&self, object: usize) -> Seq<Canned> {
        if self.has(object) {
            self.objects@[object - 1].canned@
        } else {
            Seq::empty()
        }
    }

    /// The answer that was set for an entry point. The two variants of
    /// initialize that nothing here calls are not supported.
    pub closed spec fn canned_entry(&self, point: EntryPoint) -> Reply {
        match point {
            EntryPoint::QueryFullVersion => self.full_version,
            EntryPoint::QueryVersion => self.version,
            EntryPoint::Initialize => self.initialize,
            EntryPoint::Terminate => self.terminate,
            _ => failure(ADLX_RESULT_ADLX_NOT_SUPPORTED),
        }
    }

    /// The root object that initialize hands out.
    pub closed spec fn root(&self) -> usize {
        self.root
    }

    /// The status with which an object refuses an interface that it does
    /// not answer to.
    pub closed spec fn refusal(&self) -> i32 {
        self.refusal
    }

    /// The number of objects in the table. Their addresses run from one to
    /// this number.
    pub closed spec fn size(&self) -> nat {
        self.objects@.len()
    }

    /// The number of texts that the library holds. Their addresses run
    /// from one to this number.
    pub closed spec fn text_count(&self) -> nat {
        self.texts@.len()
    }

    /// The address that the next of `count` things in a row gets: the one
    /// behind the last, or null where the row is full.
    pub open spec fn next_address(count: nat) -> usize {
        if count < usize::MAX - 1 {
            (count + 1) as usize
        } else {
            0
        }
    }

    /// Whether a new reference to `object` can be handed out under the
    /// interface called `name`.
    pub open spec fn grantable(&self, object: usize, name: Seq<u16>) -> bool {
        object != 0 && self.world().exposes(object, name) && self.world().refs(object) < REF_LIMIT
    }

    /// What an answer that was set comes to when the call is made: itself,
    /// unless it would hand out an object or a text that cannot be handed
    /// out.
    pub open spec fn checked(&self, canned: Reply, yields: Option<Seq<char>>, text: bool) -> Reply {
        if canned.status != ADLX_RESULT_ADLX_OK {
            canned
        } else if yields is Some {
            if self.grantable(canned.out.ptr, wire_name(yields->0)) {
                canned
            } else {
                failure(ADLX_RESULT_ADLX_INVALID_OBJECT)
            }
        } else if text {
            if self.text_at(canned.out.ptr) is Some {
                canned
            } else {
                failure(ADLX_RESULT_ADLX_INVALID_OBJECT)
            }
        } else {
            canned
        }
    }

    /// Whether all answers, texts and the root object of this library are
    /// those of `before`: at most the objects and the record of calls
    /// differ.
    pub open spec fn keeps(&self, before: &FakeAdlx) -> bool {
        &&& forall|object: usize| self.canned_of(object) == before.canned_of(object)
        &&& forall|address: usize| self.text_at(address) == before.text_at(address)
        &&& forall|point: EntryPoint| self.canned_entry(point) == before.canned_entry(point)
        &&& self.root() == before.root()
        &&& self.refusal() == before.refusal()
    }

    /// A fake library without objects and texts, whose entry points all
    /// fail as not supported.
    pub fn new() -> (lib: FakeAdlx)
        ensures
            lib.inv(),
            lib.world() == World::empty(),
            lib.root() == 0,
            lib.refusal() == ADLX_RESULT_ADLX_UNKNOWN_INTERFACE,
            lib.taken() == Seq::<Call>::empty(),
            forall|object: usize| lib.canned_of(object) == Seq::<Canned>::empty(),
            forall|address: usize| lib.text_at(address) is None,
            forall|point: EntryPoint|
                lib.canned_entry(point) == failure(ADLX_RESULT_ADLX_NOT_SUPPORTED),
    {
        let lib = FakeAdlx {
            objects: Vec::new(),
            texts: Vec::new(),
            full_version: fail(ADLX_RESULT_ADLX_NOT_SUPPORTED),
            version: fail(ADLX_RESULT_ADLX_NOT_SUPPORTED),
            initialize: fail(ADLX_RESULT_ADLX_NOT_SUPPORTED),
            terminate: fail(ADLX_RESULT_ADLX_NOT_SUPPORTED),
            root: 0,
            refusal: ADLX_RESULT_ADLX_UNKNOWN_INTERFACE,
            calls: Vec::new(),
        };
        assert(lib.world().objects =~= Map::<usize, Object>::empty());
        assert(lib.taken() =~= Seq::<Call>::empty());
        lib
    }

    fn valid(&self, object: usize) -> (yes: bool)
        ensures
            yes == self.has(object),
            yes == self.world().contains(object),
    {
        1 <= object && object <= self.objects.len()
    }

    fn can_grant(&self, object: usize, name: &Vec<u16>) -> (yes: bool)
        requires
            self.inv(),
        ensures
            yes == self.grantable(object, name@),
    {
        self.valid(object) && self.objects[object - 1].exposes(name) && self.objects[object
            - 1].refs < REF_LIMIT
    }

    fn readable(&self, address: usize) -> (yes: bool)
        ensures
            yes == (self.text_at(address) is Some),
    {
        1 <= address && address <= self.texts.len()
    }

    fn note(&mut self, call: Call)
        ensures
            final(self).objects == old(self).objects,
            final(self).texts == old(self).texts,
            final(self).root == old(self).root,
            final(self).refusal == old(self).refusal,
            final(self).inv() == old(self).inv(),
            final(self).world() == old(self).world(),
            final(self).keeps(old(self)),
            final(self).taken() == old(self).taken().push(call),
            forall|point: EntryPoint, version: u64|
                final(self).entry_answer(point, version) == old(self).entry_answer(point, version),
            forall|object: usize, method: Method, args: Args|
                final(self).answer(object, method, args) == old(self).answer(object, method, args),
            forall|object: usize, method: Method, args: Args|
                final(self).text_answer(object, method, args) == old(self).text_answer(
                    object,
                    method,
                    args,
                ),
            final(self).version_text() == old(self).version_text(),
    {
        self.calls.push(call);
        assert(self.world().objects =~= old(self).world().objects);
    }

    fn bump(&mut self, object: usize)
        requires
            old(self).inv(),
            old(self).has(object),
            old(self).world().refs(object) < REF_LIMIT,
        ensures
            final(self).inv(),
            final(self).world() == old(self).world().acquire(object),
            final(self).keeps(old(self)),
            final(self).has(object),
            final(self).objects@[object - 1].refs == old(self).world().refs(object) + 1,
            final(self).calls == old(self).calls,
    {
        let count: i32 = self.objects[object - 1].refs;
        self.objects[object - 1].refs = count + 1;
        assert(self.world().objects =~= old(self).world().acquire(object).objects);
    }

    /// Makes a new object that answers to the interface `iid`, holds no
    /// elements, and to which nobody holds a reference yet. Returns its
    /// address, which is the one behind the last object of the table, or
    /// null where the table is full.
    pub fn add_object(&mut self, iid: &str) -> (object: usize)
        requires
            old(self).inv(),
        ensures
            final(self).inv(),
            final(self).taken() == old(self).taken(),
            final(self).keeps(old(self)),
            final(self).text_count() == old(self).text_count(),
            object == Self::next_address(old(self).size()),
            object == 0 ==> final(self).size() == old(self).size(),
            object != 0 ==> final(self).size() == old(self).size() + 1,
            object == 0 ==> final(self).world() == old(self).world(),
            object != 0 ==> !old(self).world().contains(object) && final(self).world().objects
                == old(self).world().objects.insert(
                object,
                Object {
                    refs: 0,
                    interfaces: Set::empty().insert(wire_name(iid@)),
                    items: Seq::empty(),
                },
            ),
    {
        if self.objects.len() >= usize::MAX - 1 {
            return 0;
        }
        let name = spell(&encode_wide(iid));
        let mut interfaces: Vec<Vec<u16>> = Vec::new();
        proof {
            lemma_names_push(interfaces@, name);
            assert(names(interfaces@) =~= Set::<Seq<u16>>::empty());
        }
        interfaces.push(name);
        let fresh = FakeObject { refs: 0, interfaces, items: Vec::new(), canned: Vec::new() };
        self.objects.push(fresh);
        let object = self.objects.len();
        proof {
            assert(self.objects@[object - 1].view().items =~= Seq::<usize>::empty());
            assert(self.world().objects =~= old(self).world().objects.insert(
                object,
                Object {
                    refs: 0,
                    interfaces: Set::empty().insert(wire_name(iid@)),
                    items: Seq::empty(),
                },
            ));
            assert forall|other: usize| self.canned_of(other) == old(self).canned_of(other) by {
                if other == object {
                    assert(self.canned_of(other) =~= Seq::<Canned>::empty());
                }
            }
        }
        object
    }

    /// Lets an object answer to one more interface. Returns whether the
    /// object is there.
    pub fn add_interface(&mut self, object: usize, iid: &str) -> (done: bool)
        requires
            old(self).inv(),
        ensures
            final(self).inv(),
            final(self).taken() == old(self).taken(),
            final(self).keeps(old(self)),
            done == old(self).world().contains(object),
            !done ==> final(self).world() == old(self).world(),
            done ==> final(self).world().objects == old(self).world().objects.insert(
                object,
                Object {
                    interfaces: old(self).world().objects[object].interfaces.insert(
                        wire_name(iid@),
                    ),
                    ..old(self).world().objects[object]
                },
            ),
    {
        if !self.valid(object) {
            return false;
        }
        let name = spell(&encode_wide(iid));
        proof {
            lemma_names_push(self.objects@[object - 1].interfaces@, name);
        }
        self.objects[object - 1].interfaces.push(name);
        proof {
            assert(self.world().objects =~= old(self).world().objects.insert(
                object,
                Object {
                    interfaces: old(self).world().objects[object].interfaces.insert(
                        wire_name(iid@),
                    ),
                    ..old(self).world().objects[object]
                },
            ));
        }
        true
    }

    /// Puts `item` at the end of the list `list`, as the library itself
    /// would: no reference of a caller is involved. Returns whether both
    /// objects are there and the list has room.
    pub fn add_item(&mut self, list: usize, item: usize) -> (done: bool)
        requires
            old(self).inv(),
        ensures
            final(self).inv(),
            final(self).taken() == old(self).taken(),
            final(self).keeps(old(self)),
            done <==> {
                &&& old(self).world().contains(list)
                &&& old(self).world().contains(item)
                &&& old(self).world().items(list).len() < u32::MAX
            },
            !done ==> final(self).world() == old(self).world(),
            done ==> final(self).world().objects == old(self).world().objects.insert(
                list,
                Object {
                    items: old(self).world().items(list).push(item),
                    ..old(self).world().objects[list]
                },
            ),
    {
        if !self.valid(list) || !self.valid(item) {
            return false;
        }
        if self.objects[list - 1].items.len() >= u32::MAX as usize {
            return false;
        }
        self.objects[list - 1].items.push(item);
        proof {
            assert(self.world().objects =~= old(self).world().objects.insert(
                list,
                Object {
                    items: old(self).world().items(list).push(item),
                    ..old(self).world().objects[list]
                },
            ));
        }
        true
    }

    /// Hands one reference to `object` to the caller, as a foreign call
    /// that returns the object would. Returns whether the object is there
    /// and can take one more reference.
    pub fn grant(&mut self, object: usize) -> (done: bool)
        requires
            old(self).inv(),
        ensures
            final(self).inv(),
            final(self).taken() == old(self).taken(),
            final(self).keeps(old(self)),
            done == (old(self).world().contains(object) && old(self).world().refs(object)
                < REF_LIMIT),
            !done ==> final(self).world() == old(self).world(),
            done ==> final(self).world() == old(self).world().acquire(object),
    {
        if !self.valid(object) || self.objects[object - 1].refs >= REF_LIMIT {
            return false;
        }
        self.bump(object);
        true
    }

    /// Sets what `object` answers to a call of `method` with `args`. A
    /// later answer to the same call replaces an earlier one. Returns
    /// whether the object is there.
    pub fn set_reply(
        &mut self,
        object: usize,
        method: Method,
        args: Args,
        reply: Reply,
    ) -> (done: bool)
        requires
            old(self).inv(),
        ensures
            final(self).inv(),
            final(self).taken() == old(self).taken(),
            final(self).size() == old(self).size(),
            final(self).text_count() == old(self).text_count(),
            final(self).world() == old(self).world(),
            final(self).root() == old(self).root(),
            final(self).refusal() == old(self).refusal(),
            forall|address: usize| final(self).text_at(address) == old(self).text_at(address),
            forall|point: EntryPoint| final(self).canned_entry(point) == old(self).canned_entry(
                point,
            ),
            forall|other: usize|
                other != object ==> final(self).canned_of(other) == old(self).canned_of(other),
            done == old(self).world().contains(object),
            !done ==> final(self).canned_of(object) == old(self).canned_of(object),
            done ==> final(self).canned_of(object) == old(self).canned_of(object).push(
                Canned { method, args, reply },
            ),
    {
        if !self.valid(object) {
            return false;
        }
        self.objects[object - 1].canned.push(Canned { method, args, reply });
        proof {
            assert(self.world().objects =~= old(self).world().objects);
        }
        true
    }

    /// Stores a text and returns the address at which it can be read, which
    /// is the one behind the last text, or null where there is no room for
    /// it.
    pub fn add_text(&mut self, text: &str) -> (address: usize)
        requires
            old(self).inv(),
        ensures
            final(self).inv(),
            final(self).taken() == old(self).taken(),
            final(self).world() == old(self).world(),
            final(self).root() == old(self).root(),
            final(self).refusal() == old(self).refusal(),
            forall|object: usize| final(self).canned_of(object) == old(self).canned_of(object),
            forall|point: EntryPoint| final(self).canned_entry(point) == old(self).canned_entry(
                point,
            ),
            final(self).size() == old(self).size(),
            address == Self::next_address(old(self).text_count()),
            address == 0 ==> final(self).text_count() == old(self).text_count(),
            address != 0 ==> final(self).text_count() == old(self).text_count() + 1,
            address != 0 ==> old(self).text_at(address) is None && final(self).text_at(address)
                == Some(text@),
            forall|other: usize|
                other != address ==> final(self).text_at(other) == old(self).text_at(other),
    {
        if self.texts.len() >= usize::MAX - 1 {
            return 0;
        }
        self.texts.push(String::from_str(text));
        proof {
            assert(self.world().objects =~= old(self).world().objects);
        }
        self.texts.len()
    }

    /// Lets `object` answer a call of `method`, made without arguments,
    /// with a text. Returns the address of the text, or null where the
    /// object is not there or the text could not be stored.
    pub fn set_text(&mut self, object: usize, method: Method, text: &str) -> (address: usize)
        requires
            old(self).inv(),
        ensures
            final(self).inv(),
            final(self).taken() == old(self).taken(),
            final(self).world() == old(self).world(),
            final(self).root() == old(self).root(),
            final(self).refusal() == old(self).refusal(),
            forall|point: EntryPoint| final(self).canned_entry(point) == old(self).canned_entry(
                point,
            ),
            forall|other: usize|
                other != object ==> final(self).canned_of(other) == old(self).canned_of(other),
            forall|other: usize|
                other != address ==> final(self).text_at(other) == old(self).text_at(other),
            final(self).size() == old(self).size(),
            address == if old(self).world().contains(object) {
                Self::next_address(old(self).text_count())
            } else {
                0
            },
            address == 0 ==> final(self).text_count() == old(self).text_count(),
            address != 0 ==> final(self).text_count() == old(self).text_count() + 1,
            address == 0 ==> final(self).canned_of(object) == old(self).canned_of(object),
            address != 0 ==> {
                &&& old(self).world().contains(object)
                &&& final(self).text_at(address) == Some(text@)
                &&& final(self).canned_of(object) == old(self).canned_of(object).push(
                    Canned { method, args: Args::nothing(), reply: handed_out(address) },
                )
            },
    {
        if !self.valid(object) {
            return 0;
        }
        let address = self.add_text(text);
        if address == 0 {
            return 0;
        }
        let done = self.set_reply(object, method, Args::none(), hand_out(address));
        address
    }

    /// Sets what the library answers to a call of an entry point. What
    /// initialize hands out on success is the root object, whatever the
    /// answer set here holds. An answer for one of the two variants of
    /// initialize that nothing here calls is not taken.
    pub fn set_entry(&mut self, point: EntryPoint, reply: Reply)
        requires
            old(self).inv(),
        ensures
            final(self).inv(),
            final(self).taken() == old(self).taken(),
            final(self).world() == old(self).world(),
            final(self).root() == old(self).root(),
            final(self).refusal() == old(self).refusal(),
            forall|object: usize| final(self).canned_of(object) == old(self).canned_of(object),
            forall|address: usize| final(self).text_at(address) == old(self).text_at(address),
            forall|other: EntryPoint|
                other != point ==> final(self).canned_entry(other) == old(self).canned_entry(other),
            point == EntryPoint::InitializeWithCallerAdl || point
                == EntryPoint::InitializeWithIncompatibleDriver ==> final(self).canned_entry(point)
                == old(self).canned_entry(point),
            !(point == EntryPoint::InitializeWithCallerAdl || point
                == EntryPoint::InitializeWithIncompatibleDriver) ==> final(self).canned_entry(point)
                == reply,
    {
        match point {
            EntryPoint::QueryFullVersion => {
                self.full_version = reply;
            },
            EntryPoint::QueryVersion => {
                self.version = reply;
            },
            EntryPoint::Initialize => {
                self.initialize = reply;
            },
            EntryPoint::Terminate => {
                self.terminate = reply;
            },
            _ => {},
        }
        proof {
            assert(self.world().objects =~= old(self).world().objects);
        }
    }

    /// Sets the status with which an object refuses an interface that it
    /// does not answer to. Success is no refusal: it is not taken, and the
    /// result says so.
    pub fn set_refusal(&mut self, status: i32) -> (done: bool)
        requires
            old(self).inv(),
        ensures
            final(self).inv(),
            final(self).taken() == old(self).taken(),
            final(self).world() == old(self).world(),
            final(self).root() == old(self).root(),
            final(self).size() == old(self).size(),
            final(self).text_count() == old(self).text_count(),
            forall|object: usize| final(self).canned_of(object) == old(self).canned_of(object),
            forall|address: usize| final(self).text_at(address) == old(self).text_at(address),
            forall|point: EntryPoint| final(self).canned_entry(point) == old(self).canned_entry(
                point,
            ),
            done == (status != ADLX_RESULT_ADLX_OK),
            final(self).refusal() == if done {
                status
            } else {
                old(self).refusal()
            },
    {
        if status == ADLX_RESULT_ADLX_OK {
            return false;
        }
        self.refusal = status;
        proof {
            assert(self.world().objects =~= old(self).world().objects);
        }
        true
    }

    /// Makes `object` the root object that initialize hands out.
    pub fn set_root(&mut self, object: usize)
        requires
            old(self).inv(),
        ensures
            final(self).inv(),
            final(self).taken() == old(self).taken(),
            final(self).world() == old(self).world(),
            final(self).root() == object,
            final(self).refusal() == old(self).refusal(),
            forall|other: usize| final(self).canned_of(other) == old(self).canned_of(other),
            forall|address: usize| final(self).text_at(address) == old(self).text_at(address),
            forall|point: EntryPoint| final(self).canned_entry(point) == old(self).canned_entry(
                point,
            ),
    {
        self.root = object;
        proof {
            assert(self.world().objects =~= old(self).world().objects);
        }
    }

    /// The number of references to `object` that callers hold; zero for an
    /// address without an object.
    pub fn refs(&self, object: usize) -> (count: i32)
        requires
            self.inv(),
        ensures
            count == self.world().refs(object),
    {
        if self.valid(object) {
            self.objects[object - 1].refs
        } else {
            0
        }
    }

    /// The calls that the library has taken, in their order.
    pub fn calls(&self) -> (calls: &Vec<Call>)
        ensures
            calls@ == self.taken(),
    {
        &self.calls
    }

    /// The number of objects in the table. Their addresses run from one to
    /// this number.
    pub fn len(&self) -> (count: usize)
        ensures
            count == self.size(),
            forall|object: usize| self.world().contains(object) == (1 <= object <= count),
    {
        self.objects.len()
    }
}

/// The objects of the fake library are those at the addresses from one to
/// its size, and its texts those from one to the number of its texts.
pub proof fn lemma_addresses(lib: &FakeAdlx)
    ensures
        forall|object: usize| lib.world().contains(object) <==> 1 <= object <= lib.size(),
        forall|address: usize| lib.text_at(address) is Some <==> 1 <= address <= lib.text_count(),
{
}

impl Adlx for FakeAdlx {
    closed spec fn inv(&self) -> bool {
        &&& self.refusal != ADLX_RESULT_ADLX_OK
        &&& self.objects@.len() < usize::MAX
        &&& forall|i: int| 0 <= i < self.objects@.len() ==> (#[trigger] self.objects@[i]).wf()
    }

    closed spec fn taken(&self) -> Seq<Call> {
        self.calls@
    }

    closed spec fn world(&self) -> World {
        World {
            objects: Map::new(
                |object: usize| self.has(object),
                |object: usize| self.objects@[object - 1].view(),
            ),
        }
    }

    open spec fn answer(&self, object: usize, method: Method, args: Args) -> Reply {
        match canned_for(self.canned_of(object), method, args) {
            None => failure(ADLX_RESULT_ADLX_NOT_SUPPORTED),
            Some(canned) => self.checked(canned, method.yields(), method.yields_text()),
        }
    }

    open spec fn text_answer(&self, object: usize, method: Method, args: Args) -> Seq<char> {
        match self.text_at(self.answer(object, method, args).out.ptr) {
            Some(text) => text,
            None => Seq::empty(),
        }
    }

    open spec fn entry_answer(&self, point: EntryPoint, version: u64) -> Reply {
        let canned = self.canned_entry(point);
        if canned.status != ADLX_RESULT_ADLX_OK {
            canned
        } else if point == EntryPoint::Initialize {
            if self.grantable(self.root(), wire_name(system_iid())) {
                handed_out(self.root())
            } else {
                failure(ADLX_RESULT_ADLX_INVALID_OBJECT)
            }
        } else if point == EntryPoint::QueryVersion {
            self.checked(canned, None, true)
        } else {
            canned
        }
    }

    open spec fn version_text(&self) -> Seq<char> {
        match self.text_at(self.canned_entry(EntryPoint::QueryVersion).out.ptr) {
            Some(text) => text,
            None => Seq::empty(),
        }
    }

    open spec fn query_answer(&self, object: usize, name: Seq<u16>) -> i32 {
        if self.world().exposes(object, name) {
            ADLX_RESULT_ADLX_OK
        } else {
            self.refusal()
        }
    }

    open spec fn at_answer(&self, list: usize, method: Method, index: u32) -> i32 {
        if self.world().offers(list, index, wire_name(method.yields()->0)) {
            ADLX_RESULT_ADLX_OK
        } else {
            ADLX_RESULT_ADLX_INVALID_ARGS
        }
    }

    open spec fn add_back_answer(&self, list: usize, method: Method, item: usize) -> i32 {
        if self.world().items(list).len() < u32::MAX {
            ADLX_RESULT_ADLX_OK
        } else {
            ADLX_RESULT_ADLX_FAIL
        }
    }

    closed spec fn text_at(&self, address: usize) -> Option<Seq<char>> {
        if 1 <= address <= self.texts@.len() {
            Some(self.texts@[address - 1]@)
        } else {
            None
        }
    }

    fn acquire(&mut self, object: usize) -> (count: i32)
        ensures
            final(self).keeps(old(self)),
            count == old(self).world().refs(object) + 1,
    {
        self.note(Call::Acquire(object));
        self.bump(object);
        self.objects[object - 1].refs
    }

    fn release(&mut self, object: usize) -> (count: i32)
        ensures
            final(self).keeps(old(self)),
            count == old(self).world().refs(object) - 1,
    {
        self.note(Call::Release(object));
        let count: i32 = self.objects[object - 1].refs - 1;
        self.objects[object - 1].refs = count;
        assert(self.world().objects =~= old(self).world().release(object).objects);
        count
    }

    fn query_interface(&mut self, object: usize, iid: &Vec<u16>) -> (reply: (i32, usize))
        ensures
            final(self).keeps(old(self)),
    {
        self.note(Call::QueryInterface(object));
        let name = spell(iid);
        if self.objects[object - 1].exposes(&name) {
            self.bump(object);
            (ADLX_RESULT_ADLX_OK, object)
        } else {
            (self.refusal, 0)
        }
    }

    fn list_size(&mut self, list: usize) -> (size: u32)
        ensures
            final(self).keeps(old(self)),
    {
        self.note(Call::Size(list));
        self.objects[list - 1].items.len() as u32
    }

    fn list_at(&mut self, list: usize, method: Method, index: u32) -> (reply: (i32, usize))
        ensures
            final(self).keeps(old(self)),
    {
        self.note(Call::At(list, index));
        let iid = match method.result_interface() {
            Some(iid) => iid,
            None => {
                return (ADLX_RESULT_ADLX_INVALID_ARGS, 0);
            },
        };
        let name = spell(&encode_wide(iid));
        if (index as usize) < self.objects[list - 1].items.len() {
            let item = self.objects[list - 1].items[index as usize];
            if self.valid(item) && self.objects[item - 1].exposes(&name) {
                self.bump(item);
                return (ADLX_RESULT_ADLX_OK, item);
            }
        }
        (ADLX_RESULT_ADLX_INVALID_ARGS, 0)
    }

    fn list_add_back(&mut self, list: usize, method: Method, item: usize) -> (status: i32)
        ensures
            final(self).keeps(old(self)),
    {
        self.note(Call::AddBack(list, item));
        if self.objects[list - 1].items.len() >= u32::MAX as usize {
            return ADLX_RESULT_ADLX_FAIL;
        }
        let count: i32 = self.objects[item - 1].refs - 1;
        self.objects[item - 1].refs = count;
        self.objects[list - 1].items.push(item);
        assert(self.world().objects =~= old(self).world().give(list, item).objects);
        ADLX_RESULT_ADLX_OK
    }

    fn invoke(&mut self, object: usize, method: Method, args: Args) -> (reply: Reply)
        ensures
            final(self).keeps(old(self)),
    {
        self.note(Call::Invoke(object, method));
        let found = self.objects[object - 1].find(method, args);
        match found {
            None => fail(ADLX_RESULT_ADLX_NOT_SUPPORTED),
            Some(reply) => {
                if reply.status != ADLX_RESULT_ADLX_OK {
                    reply
                } else if let Some(iid) = method.result_interface() {
                    let name = spell(&encode_wide(iid));
                    if self.can_grant(reply.out.ptr, &name) {
                        self.bump(reply.out.ptr);
                        proof {
                            lemma_acquire_adopts(old(self).world(), reply.out.ptr, name@);
                        }
                        reply
                    } else {
                        fail(ADLX_RESULT_ADLX_INVALID_OBJECT)
                    }
                } else if method.hands_out_text() {
                    if self.readable(reply.out.ptr) {
                        reply
                    } else {
                        fail(ADLX_RESULT_ADLX_INVALID_OBJECT)
                    }
                } else {
                    reply
                }
            },
        }
    }

    fn call_entry(&mut self, point: EntryPoint, version: u64) -> (reply: Reply)
        ensures
            !(point == EntryPoint::Terminate && reply.status == ADLX_RESULT_ADLX_OK)
                ==> final(self).keeps(old(self)),
    {
        self.note(Call::Entry(point));
        let canned = match point {
            EntryPoint::QueryFullVersion => self.full_version,
            EntryPoint::QueryVersion => self.version,
            EntryPoint::Initialize => self.initialize,
            EntryPoint::Terminate => self.terminate,
            _ => fail(ADLX_RESULT_ADLX_NOT_SUPPORTED),
        };
        if canned.status != ADLX_RESULT_ADLX_OK {
            return canned;
        }
        match point {
            EntryPoint::Initialize => {
                let name = spell(&encode_wide("IADLXSystem"));
                if self.can_grant(self.root, &name) {
                    let root = self.root;
                    self.bump(root);
                    proof {
                        lemma_acquire_adopts(old(self).world(), root, name@);
                    }
                    hand_out(root)
                } else {
                    fail(ADLX_RESULT_ADLX_INVALID_OBJECT)
                }
            },
            EntryPoint::QueryVersion => {
                if self.readable(canned.out.ptr) {
                    canned
                } else {
                    fail(ADLX_RESULT_ADLX_INVALID_OBJECT)
                }
            },
            EntryPoint::Terminate => {
                self.objects = Vec::new();
                assert(self.world().objects =~= World::empty().objects);
                canned
            },
            _ => canned,
        }
    }

    fn read_text(&mut self, address: usize) -> (text: String)
        ensures
            final(self).keeps(old(self)),
    {
        self.note(Call::ReadText(address));
        self.texts[address - 1].clone()
    }
}

} // verus!
