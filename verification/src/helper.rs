//! Loading and starting the foreign library, and shutting it down.
//!
//! The shared library exports its entry points by name. Five of them have
//! to be there before anything is called: the two queries for the version,
//! initialize and its variant for a driver that is not compatible, and
//! terminate. One of these that cannot be resolved, or that resolves to a
//! null address, ends loading with an error. The variant of initialize for
//! a caller that has started ADL itself is looked up as well, but nothing
//! here calls it, and loading does not fail without it. Initialize then
//! hands out the root object, and terminate, called last of all, takes
//! everything back.

use vstd::prelude::*;
use crate::call::{address_of, status_of, text_in};
use crate::list::append;
use vstd::string::*;
use crate::ffi::{header_version, EntryPoint, Reply, ADLX_DLL_NAME};
use crate::library::{same_entries, system_iid, took, Adlx, Call, World};
use crate::result::{outcome, Error, ADLX_RESULT_ADLX_OK};
use crate::system::System;
use crate::wide::wire_name;

verus! {

/// What looking up one symbol in the shared library gave.
#[derive(Clone, Copy, Debug, PartialEq, Eq, Structural)]
pub enum Lookup {
    /// The library does not export the symbol.
    Missing,
    /// The library exports the symbol at this address, which may be null.
    Found(usize),
}

/// What looking up the entry points gave.
#[derive(Clone, Copy, Debug, PartialEq, Eq, Structural)]
pub struct Symbols {
    pub full_version: Lookup,
    pub version: Lookup,
    pub init_with_adl: Lookup,
    pub init_with_incompatible_driver: Lookup,
    pub init: Lookup,
    pub terminate: Lookup,
}

/// Why loading failed.
#[derive(Clone, Copy, Debug, PartialEq, Eq, Structural)]
pub enum LoadError {
    /// The shared library could not be opened.
    Library,
    /// The shared library does not export this entry point.
    Symbol(EntryPoint),
    /// The shared library exports this entry point at the null address.
    NullSymbol(EntryPoint),
}

/// The addresses of the entry points of a loaded library. None of the five
/// that loading asks for is null; the sixth is null where the library does
/// not export it.
#[derive(Clone, Copy, Debug, PartialEq, Eq, Structural)]
pub struct AdlxFunctions {
    full_version_fn: usize,
    version_fn: usize,
    init_with_adl_fn: usize,
    init_with_incompatible_driver_fn: usize,
    init_fn: usize,
    terminate_fn: usize,
}

/// What one lookup amounts to: the address, or the reason why there is
/// none.
pub open spec fn resolved(point: EntryPoint, lookup: Lookup) -> Result<usize, LoadError> {
    match lookup {
        Lookup::Missing => Err(LoadError::Symbol(point)),
        Lookup::Found(address) => if address == 0 {
            Err(LoadError::NullSymbol(point))
        } else {
            Ok(address)
        },
    }
}

/// Whether loading fails without this entry point: all but the variant of
/// initialize for a caller that has started ADL itself.
pub open spec fn decides(point: EntryPoint) -> bool {
    point != EntryPoint::InitializeWithCallerAdl
}

/// The address that a lookup gave, or null where it gave none.
pub open spec fn address_or_null(lookup: Lookup) -> usize {
    match lookup {
        Lookup::Missing => 0,
        Lookup::Found(address) => address,
    }
}

impl Symbols {
    /// What was found for one entry point.
    pub open spec fn of(self, point: EntryPoint) -> Lookup {
        match point {
            EntryPoint::QueryFullVersion => self.full_version,
            EntryPoint::QueryVersion => self.version,
            EntryPoint::InitializeWithCallerAdl => self.init_with_adl,
            EntryPoint::InitializeWithIncompatibleDriver => self.init_with_incompatible_driver,
            EntryPoint::Initialize => self.init,
            EntryPoint::Terminate => self.terminate,
        }
    }

    /// The error of the first entry point that did not resolve, among the
    /// five that loading asks for and in the order in which they are
    /// looked up; `None` where all five resolved.
    pub open spec fn first_failure(self) -> Option<LoadError> {
        if resolved(EntryPoint::QueryFullVersion, self.full_version) is Err {
            Some(resolved(EntryPoint::QueryFullVersion, self.full_version)->Err_0)
        } else if resolved(EntryPoint::QueryVersion, self.version) is Err {
            Some(resolved(EntryPoint::QueryVersion, self.version)->Err_0)
        } else if resolved(
            EntryPoint::InitializeWithIncompatibleDriver,
            self.init_with_incompatible_driver,
        ) is Err {
            Some(
                resolved(
                    EntryPoint::InitializeWithIncompatibleDriver,
                    self.init_with_incompatible_driver,
                )->Err_0,
            )
        } else if resolved(EntryPoint::Initialize, self.init) is Err {
            Some(resolved(EntryPoint::Initialize, self.init)->Err_0)
        } else if resolved(EntryPoint::Terminate, self.terminate) is Err {
            Some(resolved(EntryPoint::Terminate, self.terminate)->Err_0)
        } else {
            None
        }
    }
}

/// Checks one lookup: a symbol must be there, and must not be null.
pub fn load_symbol(point: EntryPoint, lookup: Lookup) -> (r: Result<usize, LoadError>)
    ensures
        r == resolved(point, lookup),
{
    match lookup {
        Lookup::Missing => Err(LoadError::Symbol(point)),
        Lookup::Found(address) => {
            if address == 0 {
                Err(LoadError::NullSymbol(point))
            } else {
                Ok(address)
            }
        },
    }
}

impl LoadError {
    /// The text of the error.
    pub open spec fn text(self) -> Seq<char> {
        match self {
            LoadError::Library => "Failed to load `"@ + ADLX_DLL_NAME@ + "`"@,
            LoadError::Symbol(point) => "Failed to get function symbol \""@ + point.symbol()
                + "\""@,
            LoadError::NullSymbol(point) => "\""@ + point.symbol() + "\" cannot be NULL"@,
        }
    }

    /// The text of the error.
    pub fn message(&self) -> (text: String)
        ensures
            text@ == self.text(),
    {
        match self {
            LoadError::Library => {
                let mut text = String::from_str("Failed to load `");
                text.append(ADLX_DLL_NAME);
                text.append("`");
                text
            },
            LoadError::Symbol(point) => {
                let mut text = String::from_str("Failed to get function symbol \"");
                text.append(point.symbol_name());
                text.append("\"");
                text
            },
            LoadError::NullSymbol(point) => {
                let mut text = String::from_str("\"");
                text.append(point.symbol_name());
                text.append("\" cannot be NULL");
                text
            },
        }
    }
}

impl AdlxFunctions {
    /// The address of one entry point.
    pub closed spec fn address(self, point: EntryPoint) -> usize {
        match point {
            EntryPoint::QueryFullVersion => self.full_version_fn,
            EntryPoint::QueryVersion => self.version_fn,
            EntryPoint::InitializeWithCallerAdl => self.init_with_adl_fn,
            EntryPoint::InitializeWithIncompatibleDriver => self.init_with_incompatible_driver_fn,
            EntryPoint::Initialize => self.init_fn,
            EntryPoint::Terminate => self.terminate_fn,
        }
    }

    /// Whether these are the addresses that `symbols` found: each of the
    /// five that loading asks for is there and not null, and the sixth is
    /// what its lookup gave.
    pub open spec fn taken_from(self, symbols: Symbols) -> bool {
        forall|point: EntryPoint|
            if decides(point) {
                symbols.of(point) == Lookup::Found(#[trigger] self.address(point))
                    && self.address(point) != 0
            } else {
                self.address(point) == address_or_null(symbols.of(point))
            }
    }

    /// Makes the table of entry points from what opening the shared library
    /// and looking up its symbols gave: `None` where the library could not
    /// be opened. Loading succeeds exactly where the library was opened and
    /// the five symbols that it asks for resolved to addresses that are not
    /// null. Otherwise the error is that of the first of them that did not.
    pub fn load(found: Option<Symbols>) -> (r: Result<AdlxFunctions, LoadError>)
        ensures
            found is None ==> r == Err::<AdlxFunctions, LoadError>(LoadError::Library),
            found matches Some(symbols) ==> match symbols.first_failure() {
                Some(e) => r == Err::<AdlxFunctions, LoadError>(e),
                None => r is Ok && r->Ok_0.taken_from(symbols),
            },
    {
        let symbols = match found {
            Some(symbols) => symbols,
            None => { return Err(LoadError::Library); },
        };
        let full_version_fn = match load_symbol(
            EntryPoint::QueryFullVersion, symbols.full_version,
        ) {
            Ok(address) => address,
            Err(e) => { return Err(e); },
        };
        let version_fn = match load_symbol(EntryPoint::QueryVersion, symbols.version) {
            Ok(address) => address,
            Err(e) => { return Err(e); },
        };
        let init_with_adl_fn = match symbols.init_with_adl {
            Lookup::Missing => 0,
            Lookup::Found(address) => address,
        };
        let init_with_incompatible_driver_fn = match load_symbol(
            EntryPoint::InitializeWithIncompatibleDriver,
            symbols.init_with_incompatible_driver,
        ) {
            Ok(address) => address,
            Err(e) => { return Err(e); },
        };
        let init_fn = match load_symbol(EntryPoint::Initialize, symbols.init) {
            Ok(address) => address,
            Err(e) => { return Err(e); },
        };
        let terminate_fn = match load_symbol(EntryPoint::Terminate, symbols.terminate) {
            Ok(address) => address,
            Err(e) => { return Err(e); },
        };
        Ok(
            AdlxFunctions {
                full_version_fn,
                version_fn,
                init_with_adl_fn,
                init_with_incompatible_driver_fn,
                init_fn,
                terminate_fn,
            },
        )
    }

    /// The address of one entry point.
    pub fn get(&self, point: EntryPoint) -> (address: usize)
        ensures
            address == self.address(point),
    {
        match point {
            EntryPoint::QueryFullVersion => self.full_version_fn,
            EntryPoint::QueryVersion => self.version_fn,
            EntryPoint::InitializeWithCallerAdl => self.init_with_adl_fn,
            EntryPoint::InitializeWithIncompatibleDriver => self.init_with_incompatible_driver_fn,
            EntryPoint::Initialize => self.init_fn,
            EntryPoint::Terminate => self.terminate_fn,
        }
    }
}

/// The full version that a reply to the full-version query amounts to.
pub open spec fn full_version_of(reply: Reply) -> Result<u64, Error> {
    outcome(reply.status, reply.out.uint64)
}

/// Asks the library for its full version: four 16-bit fields in one number.
/// What the entry points answer is the same afterwards.
pub fn query_full_version<L: Adlx>(lib: &mut L) -> (r: Result<u64, Error>)
    requires
        old(lib).inv(),
    ensures
        final(lib).inv(),
        final(lib).world() == old(lib).world(),
        r == full_version_of(old(lib).entry_answer(EntryPoint::QueryFullVersion, 0)),
        same_entries(final(lib), old(lib)),
        took(old(lib), final(lib), seq![Call::Entry(EntryPoint::QueryFullVersion)]),
{
    let reply = lib.call_entry(EntryPoint::QueryFullVersion, 0);
    assert(lib.taken() =~= old(lib).taken() + seq![Call::Entry(EntryPoint::QueryFullVersion)]);
    Error::from_result_with_assume_init_on_success(reply.status, reply.out.uint64)
}

/// The calls that asking for the version as a text takes: the entry point
/// is called, and where it answers with success the text is read at the
/// address that it has handed out.
pub open spec fn version_calls(reply: Reply) -> Seq<Call> {
    if reply.status == ADLX_RESULT_ADLX_OK {
        seq![Call::Entry(EntryPoint::QueryVersion), Call::ReadText(reply.out.ptr)]
    } else {
        seq![Call::Entry(EntryPoint::QueryVersion)]
    }
}

/// Asks the library for its version as a text. What the entry points
/// answer is the same afterwards.
pub fn query_version<L: Adlx>(lib: &mut L) -> (r: Result<String, Error>)
    requires
        old(lib).inv(),
    ensures
        final(lib).inv(),
        final(lib).world() == old(lib).world(),
        crate::call::text_in(r) == outcome(
            old(lib).entry_answer(EntryPoint::QueryVersion, 0).status,
            old(lib).version_text(),
        ),
        same_entries(final(lib), old(lib)),
        took(
            old(lib),
            final(lib),
            version_calls(old(lib).entry_answer(EntryPoint::QueryVersion, 0)),
        ),
{
    let reply = lib.call_entry(EntryPoint::QueryVersion, 0);
    match Error::from_result_with_assume_init_on_success(reply.status, reply.out.ptr) {
        Ok(address) => {
            let text = lib.read_text(address);
            assert(lib.taken() =~= old(lib).taken() + seq![
                Call::Entry(EntryPoint::QueryVersion),
                Call::ReadText(address),
            ]);
            Ok(text)
        },
        Err(e) => {
            assert(lib.taken() =~= old(lib).taken() + seq![Call::Entry(EntryPoint::QueryVersion)]);
            Err(e)
        },
    }
}

/// The address in the root handle of a result, or the error.
pub open spec fn system_in(r: Result<System, Error>) -> Result<usize, Error> {
    match r {
        Ok(system) => Ok(system.raw()),
        Err(e) => Err(e),
    }
}

/// Starts the library, with the version of the headers that this crate was
/// written against, and wraps the root object that it hands out. Where the
/// call fails the result is its status, and the cell for the root object
/// is not looked at.
pub fn initialize<L: Adlx>(lib: &mut L) -> (r: Result<System, Error>)
    requires
        old(lib).inv(),
    ensures
        final(lib).inv(),
        system_in(r) == crate::call::address_of(started_with(old(lib))),
        r matches Ok(system) ==> final(lib).world().adopted(
            old(lib).world(),
            system.raw(),
            wire_name(system_iid()),
        ),
        r is Err ==> final(lib).world() == old(lib).world(),
        took(old(lib), final(lib), seq![Call::Entry(EntryPoint::Initialize)]),
{
    let reply = lib.call_entry(EntryPoint::Initialize, header_version());
    assert(lib.taken() =~= old(lib).taken() + seq![Call::Entry(EntryPoint::Initialize)]);
    match Error::from_result_with_assume_init_on_success(reply.status, reply.out.ptr) {
        Ok(address) => Ok(System::from_raw(address)),
        Err(e) => Err(e),
    }
}

/// Shuts the library down, with one call of terminate. After a successful
/// call no object is left, and no handle may be used any more.
pub fn terminate<L: Adlx>(lib: &mut L) -> (r: Result<(), Error>)
    requires
        old(lib).inv(),
    ensures
        final(lib).inv(),
        r == crate::call::status_of(old(lib).entry_answer(EntryPoint::Terminate, 0)),
        r is Ok ==> final(lib).world() == World::empty(),
        r is Err ==> final(lib).world() == old(lib).world(),
        took(old(lib), final(lib), seq![Call::Entry(EntryPoint::Terminate)]),
{
    let reply = lib.call_entry(EntryPoint::Terminate, 0);
    assert(lib.taken() =~= old(lib).taken() + seq![Call::Entry(EntryPoint::Terminate)]);
    Error::from_result(reply.status)
}

/// What the library answers, in the state `lib`, to initialize with the
/// version of the headers that this crate was written against.
pub open spec fn started_with<L: Adlx>(lib: &L) -> Reply {
    lib.entry_answer(
        EntryPoint::Initialize,
        crate::ffi::full_version(
            crate::ffi::ADLX_VER_MAJOR,
            crate::ffi::ADLX_VER_MINOR,
            crate::ffi::ADLX_VER_RELEASE,
            crate::ffi::ADLX_VER_BUILD_NUM,
        ) as u64,
    )
}

/// The status of the first of three calls that failed, in their order;
/// `None` where all three succeeded.
pub open spec fn first_failure(full: Reply, version: Reply, started: Reply) -> Option<i32> {
    if full.status != ADLX_RESULT_ADLX_OK {
        Some(full.status)
    } else if version.status != ADLX_RESULT_ADLX_OK {
        Some(version.status)
    } else if started.status != ADLX_RESULT_ADLX_OK {
        Some(started.status)
    } else {
        None
    }
}

/// The calls that starting the library takes: the three entry points in
/// their order, up to and with the first that fails, and the reading of the
/// text of the version behind its query.
pub open spec fn start_calls(full: Reply, version: Reply) -> Seq<Call> {
    if full.status != ADLX_RESULT_ADLX_OK {
        seq![Call::Entry(EntryPoint::QueryFullVersion)]
    } else if version.status != ADLX_RESULT_ADLX_OK {
        seq![Call::Entry(EntryPoint::QueryFullVersion), Call::Entry(EntryPoint::QueryVersion)]
    } else {
        seq![
            Call::Entry(EntryPoint::QueryFullVersion),
            Call::Entry(EntryPoint::QueryVersion),
            Call::ReadText(version.out.ptr),
            Call::Entry(EntryPoint::Initialize),
        ]
    }
}

/// The loaded and started library: its entry points, its versions, and its
/// root object.
///
/// There is one of these for each process at most: the foreign library
/// does not stand being started twice. End it with [`AdlxHelper::drop`],
/// after every handle that came from it has been dropped.
pub struct AdlxHelper {
    functions: AdlxFunctions,
    system: System,
    full_version: u64,
    version: String,
}

impl AdlxHelper {
    /// The address of the root object.
    pub closed spec fn root(&self) -> usize {
        self.system.raw()
    }

    /// The full version that the library reported.
    pub closed spec fn reported_full_version(&self) -> u64 {
        self.full_version
    }

    /// The version that the library reported, as a text.
    pub closed spec fn reported_version(&self) -> Seq<char> {
        self.version@
    }

    /// The entry points that the helper was made with.
    pub closed spec fn entry_points(&self) -> AdlxFunctions {
        self.functions
    }

    /// Asks the loaded library for its versions and starts it. The three
    /// calls are made in this order, and the first that fails ends the
    /// attempt with its status: the full version, the version as a text,
    /// initialize. A failed attempt leaves the objects of the library as
    /// they were. Where all three succeed the helper holds what they gave:
    /// the full version, the text of the version, and the root object,
    /// which has been handed out.
    pub fn new<L: Adlx>(lib: &mut L, functions: AdlxFunctions) -> (r: Result<AdlxHelper, Error>)
        requires
            old(lib).inv(),
        ensures
            final(lib).inv(),
            took(
                old(lib),
                final(lib),
                start_calls(
                    old(lib).entry_answer(EntryPoint::QueryFullVersion, 0),
                    old(lib).entry_answer(EntryPoint::QueryVersion, 0),
                ),
            ),
            ({
                let full = old(lib).entry_answer(EntryPoint::QueryFullVersion, 0);
                let version = old(lib).entry_answer(EntryPoint::QueryVersion, 0);
                let started = started_with(old(lib));
                match first_failure(full, version, started) {
                    Some(status) => {
                        &&& r matches Err(e) && e == Error(status)
                        &&& final(lib).world() == old(lib).world()
                    },
                    None => {
                        &&& r matches Ok(helper) && {
                            &&& helper.root() == started.out.ptr
                            &&& helper.reported_full_version() == full.out.uint64
                            &&& helper.reported_version() == old(lib).version_text()
                            &&& helper.entry_points() == functions
                            &&& final(lib).world().adopted(
                                old(lib).world(),
                                helper.root(),
                                wire_name(system_iid()),
                            )
                        }
                    },
                }
            }),
    {
        let full_version = match query_full_version(lib) {
            Ok(full_version) => full_version,
            Err(e) => { return Err(e); },
        };
        let version = match query_version(lib) {
            Ok(version) => version,
            Err(e) => {
                assert(lib.taken() =~= old(lib).taken() + seq![
                    Call::Entry(EntryPoint::QueryFullVersion),
                    Call::Entry(EntryPoint::QueryVersion),
                ]);
                return Err(e);
            },
        };
        let system = initialize(lib);
        proof {
            let address = old(lib).entry_answer(EntryPoint::QueryVersion, 0).out.ptr;
            assert(lib.taken() =~= old(lib).taken() + seq![
                Call::Entry(EntryPoint::QueryFullVersion),
                Call::Entry(EntryPoint::QueryVersion),
                Call::ReadText(address),
                Call::Entry(EntryPoint::Initialize),
            ]);
        }
        let system = match system {
            Ok(system) => system,
            Err(e) => { return Err(e); },
        };
        Ok(AdlxHelper { functions, system, full_version, version })
    }

    /// The root object.
    pub fn system(&self) -> (system: &System)
        ensures
            system.raw() == self.root(),
    {
        &self.system
    }

    /// The full version that the library reported: four 16-bit fields in
    /// one number.
    pub fn full_version(&self) -> (version: u64)
        ensures
            version == self.reported_full_version(),
    {
        self.full_version
    }

    /// The version that the library reported, as a text.
    pub fn version(&self) -> (version: &str)
        ensures
            version@ == self.reported_version(),
    {
        self.version.as_str()
    }

    /// The addresses of the entry points.
    pub fn functions(&self) -> (functions: &AdlxFunctions)
        ensures
            *functions == self.entry_points(),
    {
        &self.functions
    }

    /// Shuts the library down, with one call of terminate. The helper is
    /// used up whether or not the
    /// library reports a failure; the failure comes back for the caller to
    /// log, since there is nothing else left to do about it.
    pub fn drop<L: Adlx>(self, lib: &mut L) -> (r: Result<(), Error>)
        requires
            old(lib).inv(),
        ensures
            final(lib).inv(),
            r == crate::call::status_of(old(lib).entry_answer(EntryPoint::Terminate, 0)),
            r is Ok ==> final(lib).world() == World::empty(),
            r is Err ==> final(lib).world() == old(lib).world(),
            took(old(lib), final(lib), seq![Call::Entry(EntryPoint::Terminate)]),
    {
        terminate(lib)
    }
}

} // verus!
