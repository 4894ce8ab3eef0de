//! One call through a function table, and what its reply amounts to.
//!
//! Every wrapped operation has the same shape: call a slot on an object,
//! check the status, and only then look at the cell that the call filled.
//! The functions here do that once for each type of cell. Each of them
//! calls the slot once.

use vstd::prelude::*;
use crate::ffi::{ADLX_IntRange, Args, Method, Reply};
use crate::interface::{handle_in, identity, Interface};
use crate::library::{took, Adlx, Call};
use crate::result::{outcome, Error, ADLX_RESULT_ADLX_OK};

verus! {

/// What a reply amounts to for a call that fills no cell.
pub open spec fn status_of(reply: Reply) -> Result<(), Error> {
    outcome(reply.status, ())
}

/// What a reply amounts to for a call that fills the cell of a signed
/// 32-bit integer.
pub open spec fn int_of(reply: Reply) -> Result<i32, Error> {
    outcome(reply.status, reply.out.int32)
}

/// What a reply amounts to for a call that fills the cell of an unsigned
/// 32-bit integer.
pub open spec fn uint_of(reply: Reply) -> Result<u32, Error> {
    outcome(reply.status, reply.out.uint32)
}

/// What a reply amounts to for a call that fills the cell of a signed
/// 64-bit integer.
pub open spec fn long_of(reply: Reply) -> Result<i64, Error> {
    outcome(reply.status, reply.out.int64)
}

/// What a reply amounts to for a call that fills the cell of a boolean:
/// any byte but zero is true.
pub open spec fn flag_of(reply: Reply) -> Result<bool, Error> {
    outcome(reply.status, reply.out.flag != 0)
}

/// What a reply amounts to for a call that fills the cell of a double: the
/// 64 bits of the number.
pub open spec fn double_of(reply: Reply) -> Result<u64, Error> {
    outcome(reply.status, reply.out.double)
}

/// What a reply amounts to for a call that fills the cell of a range.
pub open spec fn range_of(reply: Reply) -> Result<ADLX_IntRange, Error> {
    outcome(reply.status, reply.out.range)
}

/// What a reply amounts to for a call that fills a pair of bounds: the
/// half-open range from the lower to the upper.
pub open spec fn bounds_of(reply: Reply) -> Result<core::ops::Range<i32>, Error> {
    outcome(reply.status, core::ops::Range { start: reply.out.min, end: reply.out.max })
}

/// What a reply amounts to for a call that fills the cell of an address.
pub open spec fn address_of(reply: Reply) -> Result<usize, Error> {
    outcome(reply.status, reply.out.ptr)
}

/// The calls that reading a text through a slot takes: the slot is called,
/// and where it answers with success the text is read at the address that
/// it has handed out.
pub open spec fn text_calls(raw: usize, method: Method, reply: Reply) -> Seq<Call> {
    if reply.status == ADLX_RESULT_ADLX_OK {
        seq![Call::Invoke(raw, method), Call::ReadText(reply.out.ptr)]
    } else {
        seq![Call::Invoke(raw, method)]
    }
}

/// The text in a result, or the error.
pub open spec fn text_in(r: Result<String, Error>) -> Result<Seq<char>, Error> {
    match r {
        Ok(text) => Ok(text@),
        Err(e) => Err(e),
    }
}

/// Calls a slot that takes at most an integer and fills no cell.
pub fn call_status<L: Adlx>(lib: &mut L, raw: usize, method: Method, args: Args) -> (r: Result<
    (),
    Error,
>)
    requires
        old(lib).inv(),
        old(lib).world().live(raw),
        args.object == 0,
        method.yields() is None,
    ensures
        final(lib).inv(),
        took(old(lib), final(lib), seq![Call::Invoke(raw, method)]),
        final(lib).world() == old(lib).world(),
        r == status_of(old(lib).answer(raw, method, args)),
{
    let reply = lib.invoke(raw, method, args);
    assert(lib.taken() =~= old(lib).taken() + seq![Call::Invoke(raw, method)]);
    Error::from_result(reply.status)
}

/// Calls a slot that fills the cell of a signed 32-bit integer.
pub fn call_int<L: Adlx>(lib: &mut L, raw: usize, method: Method) -> (r: Result<i32, Error>)
    requires
        old(lib).inv(),
        old(lib).world().live(raw),
        method.yields() is None,
    ensures
        final(lib).inv(),
        took(old(lib), final(lib), seq![Call::Invoke(raw, method)]),
        final(lib).world() == old(lib).world(),
        r == int_of(old(lib).answer(raw, method, Args::nothing())),
{
    let reply = lib.invoke(raw, method, Args::none());
    assert(lib.taken() =~= old(lib).taken() + seq![Call::Invoke(raw, method)]);
    Error::from_result_with_assume_init_on_success(reply.status, reply.out.int32)
}

/// Calls a slot that fills the cell of an unsigned 32-bit integer.
pub fn call_uint<L: Adlx>(lib: &mut L, raw: usize, method: Method) -> (r: Result<u32, Error>)
    requires
        old(lib).inv(),
        old(lib).world().live(raw),
        method.yields() is None,
    ensures
        final(lib).inv(),
        took(old(lib), final(lib), seq![Call::Invoke(raw, method)]),
        final(lib).world() == old(lib).world(),
        r == uint_of(old(lib).answer(raw, method, Args::nothing())),
{
    let reply = lib.invoke(raw, method, Args::none());
    assert(lib.taken() =~= old(lib).taken() + seq![Call::Invoke(raw, method)]);
    Error::from_result_with_assume_init_on_success(reply.status, reply.out.uint32)
}

/// Calls a slot that fills the cell of a signed 64-bit integer.
pub fn call_long<L: Adlx>(lib: &mut L, raw: usize, method: Method) -> (r: Result<i64, Error>)
    requires
        old(lib).inv(),
        old(lib).world().live(raw),
        method.yields() is None,
    ensures
        final(lib).inv(),
        took(old(lib), final(lib), seq![Call::Invoke(raw, method)]),
        final(lib).world() == old(lib).world(),
        r == long_of(old(lib).answer(raw, method, Args::nothing())),
{
    let reply = lib.invoke(raw, method, Args::none());
    assert(lib.taken() =~= old(lib).taken() + seq![Call::Invoke(raw, method)]);
    Error::from_result_with_assume_init_on_success(reply.status, reply.out.int64)
}

/// Calls a slot that fills the cell of a boolean.
pub fn call_flag<L: Adlx>(lib: &mut L, raw: usize, method: Method) -> (r: Result<bool, Error>)
    requires
        old(lib).inv(),
        old(lib).world().live(raw),
        method.yields() is None,
    ensures
        final(lib).inv(),
        took(old(lib), final(lib), seq![Call::Invoke(raw, method)]),
        final(lib).world() == old(lib).world(),
        r == flag_of(old(lib).answer(raw, method, Args::nothing())),
{
    let reply = lib.invoke(raw, method, Args::none());
    assert(lib.taken() =~= old(lib).taken() + seq![Call::Invoke(raw, method)]);
    match Error::from_result_with_assume_init_on_success(reply.status, reply.out.flag) {
        Ok(flag) => Ok(flag != 0),
        Err(e) => Err(e),
    }
}

/// Calls a slot that fills the cell of a double, and returns the 64 bits
/// of the number.
pub fn call_double<L: Adlx>(lib: &mut L, raw: usize, method: Method) -> (r: Result<u64, Error>)
    requires
        old(lib).inv(),
        old(lib).world().live(raw),
        method.yields() is None,
    ensures
        final(lib).inv(),
        took(old(lib), final(lib), seq![Call::Invoke(raw, method)]),
        final(lib).world() == old(lib).world(),
        r == double_of(old(lib).answer(raw, method, Args::nothing())),
{
    let reply = lib.invoke(raw, method, Args::none());
    assert(lib.taken() =~= old(lib).taken() + seq![Call::Invoke(raw, method)]);
    Error::from_result_with_assume_init_on_success(reply.status, reply.out.double)
}

/// Calls a slot that fills the cell of a range.
pub fn call_range<L: Adlx>(lib: &mut L, raw: usize, method: Method) -> (r: Result<
    ADLX_IntRange,
    Error,
>)
    requires
        old(lib).inv(),
        old(lib).world().live(raw),
        method.yields() is None,
    ensures
        final(lib).inv(),
        took(old(lib), final(lib), seq![Call::Invoke(raw, method)]),
        final(lib).world() == old(lib).world(),
        r == range_of(old(lib).answer(raw, method, Args::nothing())),
{
    let reply = lib.invoke(raw, method, Args::none());
    assert(lib.taken() =~= old(lib).taken() + seq![Call::Invoke(raw, method)]);
    Error::from_result_with_assume_init_on_success(reply.status, reply.out.range)
}

/// Calls a slot that fills a lower and an upper bound.
pub fn call_bounds<L: Adlx>(lib: &mut L, raw: usize, method: Method) -> (r: Result<
    core::ops::Range<i32>,
    Error,
>)
    requires
        old(lib).inv(),
        old(lib).world().live(raw),
        method.yields() is None,
    ensures
        final(lib).inv(),
        took(old(lib), final(lib), seq![Call::Invoke(raw, method)]),
        final(lib).world() == old(lib).world(),
        r == bounds_of(old(lib).answer(raw, method, Args::nothing())),
{
    let reply = lib.invoke(raw, method, Args::none());
    assert(lib.taken() =~= old(lib).taken() + seq![Call::Invoke(raw, method)]);
    match Error::from_result(reply.status) {
        Ok(()) => {
            let min = reply.out.min;
            let max = reply.out.max;
            Ok(min..max)
        },
        Err(e) => Err(e),
    }
}

/// Calls a slot that hands out the address of a text, and reads the text
/// if the call succeeded.
pub fn call_text<L: Adlx>(lib: &mut L, raw: usize, method: Method) -> (r: Result<String, Error>)
    requires
        old(lib).inv(),
        old(lib).world().live(raw),
        method.yields_text(),
        method.yields() is None,
    ensures
        final(lib).inv(),
        took(
            old(lib),
            final(lib),
            text_calls(raw, method, old(lib).answer(raw, method, Args::nothing())),
        ),
        final(lib).world() == old(lib).world(),
        text_in(r) == outcome(
            old(lib).answer(raw, method, Args::nothing()).status,
            old(lib).text_answer(raw, method, Args::nothing()),
        ),
{
    let reply = lib.invoke(raw, method, Args::none());
    match Error::from_result_with_assume_init_on_success(reply.status, reply.out.ptr) {
        Ok(address) => {
            let text = lib.read_text(address);
            assert(lib.taken() =~= old(lib).taken() + seq![
                Call::Invoke(raw, method),
                Call::ReadText(address),
            ]);
            Ok(text)
        },
        Err(e) => {
            assert(lib.taken() =~= old(lib).taken() + seq![Call::Invoke(raw, method)]);
            Err(e)
        },
    }
}

/// Calls a slot that hands out an object of the interface `I`, and wraps
/// the object in a handle if the call succeeded. The handle owns the
/// reference that the call handed out.
pub fn call_object<I: Interface, L: Adlx>(
    lib: &mut L,
    raw: usize,
    method: Method,
    args: Args,
) -> (r: Result<I, Error>)
    requires
        old(lib).inv(),
        old(lib).world().live(raw),
        args.object != 0 ==> old(lib).world().live(args.object),
        method.yields() == Some(I::iid()),
    ensures
        final(lib).inv(),
        took(old(lib), final(lib), seq![Call::Invoke(raw, method)]),
        handle_in(r) == address_of(old(lib).answer(raw, method, args)),
        r matches Ok(handle) ==> final(lib).world().adopted(
            old(lib).world(),
            handle.raw(),
            identity::<I>(),
        ),
        r is Err ==> final(lib).world() == old(lib).world(),
{
    let reply = lib.invoke(raw, method, args);
    assert(lib.taken() =~= old(lib).taken() + seq![Call::Invoke(raw, method)]);
    match Error::from_result_with_assume_init_on_success(reply.status, reply.out.ptr) {
        Ok(address) => Ok(I::from_raw(address)),
        Err(e) => Err(e),
    }
}

} // verus!
