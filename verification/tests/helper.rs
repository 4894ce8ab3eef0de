use adlx::fake::{Call, FakeAdlx};
use adlx::ffi::{header_version, make_full_version, EntryPoint, Out, Reply};
use adlx::helper::{
    initialize, load_symbol, query_full_version, query_version, terminate, LoadError, Lookup,
    Symbols,
};
use adlx::{AdlxFunctions, AdlxHelper, Error};

fn all_found() -> Symbols {
    Symbols {
        full_version: Lookup::Found(0x10),
        version: Lookup::Found(0x20),
        init_with_adl: Lookup::Found(0x30),
        init_with_incompatible_driver: Lookup::Found(0x40),
        init: Lookup::Found(0x50),
        terminate: Lookup::Found(0x60),
    }
}

fn ok(out: Out) -> Reply {
    Reply { status: 0, out }
}

fn failed(status: i32) -> Reply {
    Reply { status, out: Out::zeroed() }
}

/// A library that reports version 1.4.0.110 and has a root object.
fn started() -> (FakeAdlx, usize) {
    let mut lib = FakeAdlx::new();
    let root = lib.add_object("IADLXSystem");
    lib.set_root(root);
    let mut out = Out::zeroed();
    out.uint64 = 0x0001_0004_0000_006E;
    lib.set_entry(EntryPoint::QueryFullVersion, ok(out));
    let mut out = Out::zeroed();
    out.ptr = lib.add_text("1.4.0.110");
    lib.set_entry(EntryPoint::QueryVersion, ok(out));
    lib.set_entry(EntryPoint::Initialize, ok(Out::zeroed()));
    lib.set_entry(EntryPoint::Terminate, ok(Out::zeroed()));
    (lib, root)
}

#[test]
fn version_fields_are_packed_sixteen_bits_each() {
    assert_eq!(make_full_version(1, 4, 0, 110), 0x0001_0004_0000_006E);
    assert_eq!(make_full_version(0, 0, 0, 0), 0);
    assert_eq!(make_full_version(0xFFFF, 0xFFFF, 0xFFFF, 0xFFFF), u64::MAX);
    assert_eq!(make_full_version(1, 0, 0, 0), 1 << 48);
    assert_eq!(make_full_version(0, 1, 0, 0), 1 << 32);
    assert_eq!(make_full_version(0, 0, 1, 0), 1 << 16);
    assert_eq!(make_full_version(0, 0, 0, 1), 1);
    assert_eq!(header_version(), 0x0001_0004_0000_006E);
}

#[test]
fn entry_points_have_their_symbols() {
    assert_eq!(EntryPoint::QueryFullVersion.symbol_name(), "ADLXQueryFullVersion");
    assert_eq!(EntryPoint::QueryVersion.symbol_name(), "ADLXQueryVersion");
    assert_eq!(EntryPoint::InitializeWithCallerAdl.symbol_name(), "ADLXInitializeWithCallerAdl");
    assert_eq!(
        EntryPoint::InitializeWithIncompatibleDriver.symbol_name(),
        "ADLXInitializeWithIncompatibleDriver"
    );
    assert_eq!(EntryPoint::Initialize.symbol_name(), "ADLXInitialize");
    assert_eq!(EntryPoint::Terminate.symbol_name(), "ADLXTerminate");
}

#[test]
fn loading_takes_all_six_addresses() {
    let functions = AdlxFunctions::load(Some(all_found())).unwrap();
    assert_eq!(functions.get(EntryPoint::QueryFullVersion), 0x10);
    assert_eq!(functions.get(EntryPoint::QueryVersion), 0x20);
    assert_eq!(functions.get(EntryPoint::InitializeWithCallerAdl), 0x30);
    assert_eq!(functions.get(EntryPoint::InitializeWithIncompatibleDriver), 0x40);
    assert_eq!(functions.get(EntryPoint::Initialize), 0x50);
    assert_eq!(functions.get(EntryPoint::Terminate), 0x60);
}

#[test]
fn loading_fails_without_the_library() {
    assert_eq!(AdlxFunctions::load(None), Err(LoadError::Library));
    assert_eq!(LoadError::Library.message(), "Failed to load `amdadlx64.dll`");
}

#[test]
fn loading_fails_on_a_missing_symbol() {
    let mut symbols = all_found();
    symbols.terminate = Lookup::Missing;
    assert_eq!(
        AdlxFunctions::load(Some(symbols)),
        Err(LoadError::Symbol(EntryPoint::Terminate))
    );
    assert_eq!(
        LoadError::Symbol(EntryPoint::Terminate).message(),
        "Failed to get function symbol \"ADLXTerminate\""
    );
}

#[test]
fn loading_fails_on_a_null_symbol() {
    let mut symbols = all_found();
    symbols.init = Lookup::Found(0);
    assert_eq!(
        AdlxFunctions::load(Some(symbols)),
        Err(LoadError::NullSymbol(EntryPoint::Initialize))
    );
    assert_eq!(
        LoadError::NullSymbol(EntryPoint::Initialize).message(),
        "\"ADLXInitialize\" cannot be NULL"
    );
}

#[test]
fn loading_reports_the_first_symbol_that_fails() {
    let mut symbols = all_found();
    symbols.version = Lookup::Found(0);
    symbols.init_with_incompatible_driver = Lookup::Missing;
    symbols.terminate = Lookup::Missing;
    assert_eq!(
        AdlxFunctions::load(Some(symbols)),
        Err(LoadError::NullSymbol(EntryPoint::QueryVersion))
    );
    symbols.version = Lookup::Found(1);
    assert_eq!(
        AdlxFunctions::load(Some(symbols)),
        Err(LoadError::Symbol(EntryPoint::InitializeWithIncompatibleDriver))
    );
    symbols.full_version = Lookup::Missing;
    assert_eq!(
        AdlxFunctions::load(Some(symbols)),
        Err(LoadError::Symbol(EntryPoint::QueryFullVersion))
    );
}

#[test]
fn loading_does_not_ask_for_the_variant_for_a_caller_with_adl() {
    let mut symbols = all_found();
    symbols.init_with_adl = Lookup::Missing;
    let functions = AdlxFunctions::load(Some(symbols)).unwrap();
    assert_eq!(functions.get(EntryPoint::InitializeWithCallerAdl), 0);
    assert_eq!(functions.get(EntryPoint::Initialize), 0x50);
    symbols.init_with_adl = Lookup::Found(0);
    let functions = AdlxFunctions::load(Some(symbols)).unwrap();
    assert_eq!(functions.get(EntryPoint::InitializeWithCallerAdl), 0);
    assert_eq!(functions.get(EntryPoint::Terminate), 0x60);
}

#[test]
fn each_of_the_five_is_asked_for() {
    for missing in 0..5 {
        let mut symbols = all_found();
        let point = match missing {
            0 => {
                symbols.full_version = Lookup::Missing;
                EntryPoint::QueryFullVersion
            }
            1 => {
                symbols.version = Lookup::Missing;
                EntryPoint::QueryVersion
            }
            2 => {
                symbols.init_with_incompatible_driver = Lookup::Missing;
                EntryPoint::InitializeWithIncompatibleDriver
            }
            3 => {
                symbols.init = Lookup::Missing;
                EntryPoint::Initialize
            }
            _ => {
                symbols.terminate = Lookup::Missing;
                EntryPoint::Terminate
            }
        };
        assert_eq!(AdlxFunctions::load(Some(symbols)), Err(LoadError::Symbol(point)));
    }
}

#[test]
fn one_lookup() {
    assert_eq!(load_symbol(EntryPoint::Initialize, Lookup::Found(8)), Ok(8));
    assert_eq!(
        load_symbol(EntryPoint::Initialize, Lookup::Found(0)),
        Err(LoadError::NullSymbol(EntryPoint::Initialize))
    );
    assert_eq!(
        load_symbol(EntryPoint::QueryVersion, Lookup::Missing),
        Err(LoadError::Symbol(EntryPoint::QueryVersion))
    );
}

#[test]
fn helper_starts_the_library() {
    let (mut lib, root) = started();
    let functions = AdlxFunctions::load(Some(all_found())).unwrap();
    let helper = AdlxHelper::new(&mut lib, functions).unwrap();
    assert_eq!(helper.full_version(), 0x0001_0004_0000_006E);
    assert_eq!(helper.version(), "1.4.0.110");
    assert_eq!(helper.system().as_raw(), root);
    assert_eq!(*helper.functions(), functions);
    assert_eq!(lib.refs(root), 1);
    assert_eq!(helper.drop(&mut lib), Ok(()));
    assert_eq!(lib.refs(root), 0);
    assert_eq!(lib.len(), 0);
}

#[test]
fn failing_initialize_returns_its_status_and_no_root() {
    let (mut lib, root) = started();
    let mut garbage = Out::zeroed();
    garbage.ptr = 0xDEAD_BEEF;
    lib.set_entry(EntryPoint::Initialize, Reply { status: 3, out: garbage });
    assert_eq!(initialize(&mut lib).err(), Some(Error(3)));
    assert_eq!(lib.refs(root), 0);

    let functions = AdlxFunctions::load(Some(all_found())).unwrap();
    assert_eq!(AdlxHelper::new(&mut lib, functions).err(), Some(Error(3)));
    assert_eq!(lib.refs(root), 0);
}

#[test]
fn initialize_hands_out_the_root_whatever_the_cell_held() {
    let (mut lib, root) = started();
    let mut garbage = Out::zeroed();
    garbage.ptr = 0xDEAD_BEEF;
    lib.set_entry(EntryPoint::Initialize, ok(garbage));
    let system = initialize(&mut lib).unwrap();
    assert_eq!(system.as_raw(), root);
    assert_eq!(lib.refs(root), 1);
}

#[test]
fn helper_stops_at_the_first_call_that_fails() {
    let (mut lib, root) = started();
    lib.set_entry(EntryPoint::QueryFullVersion, failed(5));
    lib.set_entry(EntryPoint::QueryVersion, failed(7));
    let functions = AdlxFunctions::load(Some(all_found())).unwrap();
    assert_eq!(AdlxHelper::new(&mut lib, functions).err(), Some(Error(5)));

    let (mut lib2, _) = started();
    lib2.set_entry(EntryPoint::QueryVersion, failed(7));
    assert_eq!(AdlxHelper::new(&mut lib2, functions).err(), Some(Error(7)));
    assert_eq!(lib.refs(root), 0);
}

#[test]
fn versions_are_asked_one_by_one() {
    let (mut lib, _) = started();
    assert_eq!(query_full_version(&mut lib), Ok(0x0001_0004_0000_006E));
    assert_eq!(query_version(&mut lib), Ok(String::from("1.4.0.110")));
    lib.set_entry(EntryPoint::QueryFullVersion, failed(2));
    assert_eq!(query_full_version(&mut lib), Err(Error(2)));
    lib.set_entry(EntryPoint::QueryVersion, failed(4));
    assert_eq!(query_version(&mut lib), Err(Error(4)));
}

#[test]
fn failing_terminate_comes_back_to_the_caller() {
    let (mut lib, root) = started();
    let functions = AdlxFunctions::load(Some(all_found())).unwrap();
    let helper = AdlxHelper::new(&mut lib, functions).unwrap();
    lib.set_entry(EntryPoint::Terminate, failed(11));
    assert_eq!(helper.drop(&mut lib), Err(Error(11)));
    assert_eq!(lib.refs(root), 1);
    lib.set_entry(EntryPoint::Terminate, ok(Out::zeroed()));
    assert_eq!(terminate(&mut lib), Ok(()));
    assert_eq!(lib.refs(root), 0);
}

#[test]
fn before_anything_is_set_the_entry_points_are_not_supported() {
    let mut lib = FakeAdlx::new();
    assert_eq!(query_full_version(&mut lib), Err(Error(12)));
    assert_eq!(initialize(&mut lib).err(), Some(Error(12)));
    assert_eq!(terminate(&mut lib), Err(Error(12)));
}

#[test]
fn helper_calls_the_entry_points_in_order() {
    let (mut lib, _) = started();
    let functions = AdlxFunctions::load(Some(all_found())).unwrap();
    let helper = AdlxHelper::new(&mut lib, functions).unwrap();
    assert_eq!(helper.drop(&mut lib), Ok(()));
    let entries: Vec<Call> =
        lib.calls().iter().copied().filter(|call| matches!(call, Call::Entry(_))).collect();
    assert_eq!(
        entries,
        vec![
            Call::Entry(EntryPoint::QueryFullVersion),
            Call::Entry(EntryPoint::QueryVersion),
            Call::Entry(EntryPoint::Initialize),
            Call::Entry(EntryPoint::Terminate),
        ]
    );
}

#[test]
fn after_a_failed_query_nothing_else_is_called() {
    let (mut lib, _) = started();
    lib.set_entry(EntryPoint::QueryFullVersion, failed(3));
    let functions = AdlxFunctions::load(Some(all_found())).unwrap();
    assert!(AdlxHelper::new(&mut lib, functions).is_err());
    assert_eq!(lib.calls(), &vec![Call::Entry(EntryPoint::QueryFullVersion)]);
}

#[test]
fn terminate_is_called_once() {
    let (mut lib, _) = started();
    assert_eq!(terminate(&mut lib), Ok(()));
    assert_eq!(lib.calls(), &vec![Call::Entry(EntryPoint::Terminate)]);

    let (mut lib, _) = started();
    lib.set_entry(EntryPoint::Terminate, failed(11));
    assert_eq!(terminate(&mut lib), Err(Error(11)));
    assert_eq!(lib.calls(), &vec![Call::Entry(EntryPoint::Terminate)]);
}

#[test]
fn the_text_of_the_version_is_read_behind_its_query() {
    let (mut lib, _) = started();
    assert_eq!(query_version(&mut lib), Ok(String::from("1.4.0.110")));
    assert_eq!(lib.calls(), &vec![Call::Entry(EntryPoint::QueryVersion), Call::ReadText(1)]);
}
