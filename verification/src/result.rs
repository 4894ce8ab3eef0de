//! Status codes of the foreign library and their mapping to typed results.
//!
//! Every foreign call answers with an integer status. Zero is the only
//! success value; anything else is a failure that carries no payload besides
//! the code itself. Human-readable text comes from a fixed table, with a
//! fallback for codes this table does not know.

use vstd::prelude::*;
use vstd::string::*;

verus! {

pub const ADLX_RESULT_ADLX_OK: i32 = 0;

pub const ADLX_RESULT_ADLX_ALREADY_ENABLED: i32 = 1;

pub const ADLX_RESULT_ADLX_ALREADY_INITIALIZED: i32 = 2;

pub const ADLX_RESULT_ADLX_FAIL: i32 = 3;

pub const ADLX_RESULT_ADLX_INVALID_ARGS: i32 = 4;

pub const ADLX_RESULT_ADLX_BAD_VER: i32 = 5;

pub const ADLX_RESULT_ADLX_UNKNOWN_INTERFACE: i32 = 6;

pub const ADLX_RESULT_ADLX_TERMINATED: i32 = 7;

pub const ADLX_RESULT_ADLX_ADL_INIT_ERROR: i32 = 8;

pub const ADLX_RESULT_ADLX_NOT_FOUND: i32 = 9;

pub const ADLX_RESULT_ADLX_INVALID_OBJECT: i32 = 10;

pub const ADLX_RESULT_ADLX_ORPHAN_OBJECTS: i32 = 11;

pub const ADLX_RESULT_ADLX_NOT_SUPPORTED: i32 = 12;

pub const ADLX_RESULT_ADLX_PENDING_OPERATION: i32 = 13;

pub const ADLX_RESULT_ADLX_GPU_INACTIVE: i32 = 14;

/// A failed foreign call: the status code it returned.
#[derive(Clone, Copy, Debug, PartialEq, Eq, Structural)]
pub struct Error(pub i32);

/// Whether `code` is one of the status codes the table below knows.
pub open spec fn is_known_code(code: i32) -> bool {
    ADLX_RESULT_ADLX_OK <= code <= ADLX_RESULT_ADLX_GPU_INACTIVE
}

/// The decimal digit with value `d`.
pub open spec fn digit_char(d: nat) -> char {
    if d == 0 {
        '0'
    } else if d == 1 {
        '1'
    } else if d == 2 {
        '2'
    } else if d == 3 {
        '3'
    } else if d == 4 {
        '4'
    } else if d == 5 {
        '5'
    } else if d == 6 {
        '6'
    } else if d == 7 {
        '7'
    } else if d == 8 {
        '8'
    } else {
        '9'
    }
}

/// The decimal digits of `n`, most significant first, without leading zeros.
pub open spec fn digits(n: nat) -> Seq<char>
    decreases n,
{
    if n < 10 {
        seq![digit_char(n)]
    } else {
        digits(n / 10).push(digit_char(n % 10))
    }
}

/// `n` written in decimal, with a leading minus sign when negative.
pub open spec fn decimal(n: int) -> Seq<char> {
    if n < 0 {
        seq!['-'] + digits((-n) as nat)
    } else {
        digits(n as nat)
    }
}

/// The sentence for a status code: one fixed sentence per known code, and a
/// fallback that quotes the number for every other code.
pub open spec fn message_of(code: i32) -> Seq<char> {
    if code == ADLX_RESULT_ADLX_OK {
        "This result indicates success"@
    } else if code == ADLX_RESULT_ADLX_ALREADY_ENABLED {
        "The asked action is already enabled"@
    } else if code == ADLX_RESULT_ADLX_ALREADY_INITIALIZED {
        "This result indicates that ADLX has a unspecified type of initialization"@
    } else if code == ADLX_RESULT_ADLX_FAIL {
        "This result indicates an unspecified failure"@
    } else if code == ADLX_RESULT_ADLX_INVALID_ARGS {
        "The arguments are invalid"@
    } else if code == ADLX_RESULT_ADLX_BAD_VER {
        "The asked version is incompatible with the current version"@
    } else if code == ADLX_RESULT_ADLX_UNKNOWN_INTERFACE {
        "This result indicates that an unknown interface was asked"@
    } else if code == ADLX_RESULT_ADLX_TERMINATED {
        "The calls were made in an interface after ADLX was terminated"@
    } else if code == ADLX_RESULT_ADLX_ADL_INIT_ERROR {
        "The ADL initialization failed"@
    } else if code == ADLX_RESULT_ADLX_NOT_FOUND {
        "The item is not found"@
    } else if code == ADLX_RESULT_ADLX_INVALID_OBJECT {
        "The method was called into an invalid object"@
    } else if code == ADLX_RESULT_ADLX_ORPHAN_OBJECTS {
        "This result indicates that ADLX was terminated with outstanding ADLX objects. Any interface obtained from ADLX points to invalid memory and calls in their methods will result in unexpected behavior"@
    } else if code == ADLX_RESULT_ADLX_NOT_SUPPORTED {
        "The asked feature is not supported"@
    } else if code == ADLX_RESULT_ADLX_PENDING_OPERATION {
        "This result indicates a failure due to an operation currently in progress"@
    } else if code == ADLX_RESULT_ADLX_GPU_INACTIVE {
        "The GPU is inactive"@
    } else {
        "Unknown ADLX_RESULT `"@ + decimal(code as int) + "`"@
    }
}

/// The symbolic name of a failing status code, or, for a code without a
/// name, the fallback that quotes its number. Success has no entry.
pub open spec fn name_of(code: i32) -> Seq<char> {
    if code == ADLX_RESULT_ADLX_ALREADY_ENABLED {
        "ADLX_RESULT_ADLX_ALREADY_ENABLED"@
    } else if code == ADLX_RESULT_ADLX_ALREADY_INITIALIZED {
        "ADLX_RESULT_ADLX_ALREADY_INITIALIZED"@
    } else if code == ADLX_RESULT_ADLX_FAIL {
        "ADLX_RESULT_ADLX_FAIL"@
    } else if code == ADLX_RESULT_ADLX_INVALID_ARGS {
        "ADLX_RESULT_ADLX_INVALID_ARGS"@
    } else if code == ADLX_RESULT_ADLX_BAD_VER {
        "ADLX_RESULT_ADLX_BAD_VER"@
    } else if code == ADLX_RESULT_ADLX_UNKNOWN_INTERFACE {
        "ADLX_RESULT_ADLX_UNKNOWN_INTERFACE"@
    } else if code == ADLX_RESULT_ADLX_TERMINATED {
        "ADLX_RESULT_ADLX_TERMINATED"@
    } else if code == ADLX_RESULT_ADLX_ADL_INIT_ERROR {
        "ADLX_RESULT_ADLX_ADL_INIT_ERROR"@
    } else if code == ADLX_RESULT_ADLX_NOT_FOUND {
        "ADLX_RESULT_ADLX_NOT_FOUND"@
    } else if code == ADLX_RESULT_ADLX_INVALID_OBJECT {
        "ADLX_RESULT_ADLX_INVALID_OBJECT"@
    } else if code == ADLX_RESULT_ADLX_ORPHAN_OBJECTS {
        "ADLX_RESULT_ADLX_ORPHAN_OBJECTS"@
    } else if code == ADLX_RESULT_ADLX_NOT_SUPPORTED {
        "ADLX_RESULT_ADLX_NOT_SUPPORTED"@
    } else if code == ADLX_RESULT_ADLX_PENDING_OPERATION {
        "ADLX_RESULT_ADLX_PENDING_OPERATION"@
    } else if code == ADLX_RESULT_ADLX_GPU_INACTIVE {
        "ADLX_RESULT_ADLX_GPU_INACTIVE"@
    } else {
        "Unknown ADLX_RESULT `"@ + decimal(code as int) + "`"@
    }
}

/// What a status code and the slot its call filled amount to: the slot's
/// content on success, the code itself otherwise.
pub open spec fn outcome<T>(result: i32, ret: T) -> Result<T, Error> {
    if result == ADLX_RESULT_ADLX_OK {
        Ok(ret)
    } else {
        Err(Error(result))
    }
}

fn digit_str(d: u64) -> (s: &'static str)
    requires
        d < 10,
    ensures
        s@ == seq![digit_char(d as nat)],
{
    let s = if d == 0 {
        proof {
            reveal_strlit("0");
        }
        "0"
    } else if d == 1 {
        proof {
            reveal_strlit("1");
        }
        "1"
    } else if d == 2 {
        proof {
            reveal_strlit("2");
        }
        "2"
    } else if d == 3 {
        proof {
            reveal_strlit("3");
        }
        "3"
    } else if d == 4 {
        proof {
            reveal_strlit("4");
        }
        "4"
    } else if d == 5 {
        proof {
            reveal_strlit("5");
        }
        "5"
    } else if d == 6 {
        proof {
            reveal_strlit("6");
        }
        "6"
    } else if d == 7 {
        proof {
            reveal_strlit("7");
        }
        "7"
    } else if d == 8 {
        proof {
            reveal_strlit("8");
        }
        "8"
    } else {
        proof {
            reveal_strlit("9");
        }
        "9"
    };
    assert(s@ =~= seq![digit_char(d as nat)]);
    s
}

fn push_digits(n: u64, text: &mut String)
    ensures
        final(text)@ == old(text)@ + digits(n as nat),
    decreases n,
{
    if n >= 10 {
        push_digits(n / 10, text);
    }
    let ghost before = text@;
    text.append(digit_str(n % 10));
    assert(text@ =~= old(text)@ + digits(n as nat)) by {
        if n >= 10 {
            let last = digit_char((n % 10) as nat);
            assert(before + seq![last] =~= old(text)@ + digits((n / 10) as nat).push(last));
        }
    }
}

/// Writes `value` in decimal.
pub fn decimal_string(value: i32) -> (text: String)
    ensures
        text@ == decimal(value as int),
{
    let wide: i64 = value as i64;
    if wide < 0 {
        proof {
            reveal_strlit("-");
        }
        let mut text = String::from_str("-");
        push_digits((-wide) as u64, &mut text);
        assert(text@ =~= decimal(value as int));
        text
    } else {
        let mut text = String::new();
        push_digits(wide as u64, &mut text);
        assert(text@ =~= decimal(value as int));
        text
    }
}

impl Error {
    /// Funnels a raw status code into a typed outcome: success for zero, the
    /// code as an error for everything else.
    pub fn from_result(result: i32) -> (r: Result<(), Error>)
        ensures
            r == outcome(result, ()),
    {
        if result == ADLX_RESULT_ADLX_OK {
            Ok(())
        } else {
            Err(Error(result))
        }
    }

    /// Checks the status of a call that fills a slot, and hands the slot's
    /// content out only when the call succeeded. On failure the content is
    /// dropped unseen: what the error says depends on the status alone.
    pub fn from_result_with_assume_init_on_success<T>(result: i32, ret: T) -> (r: Result<T, Error>)
        ensures
            r == outcome(result, ret),
    {
        match Error::from_result(result) {
            Ok(()) => Ok(ret),
            Err(e) => Err(e),
        }
    }

    /// The status code that the failed call returned.
    pub fn code(&self) -> (code: i32)
        ensures
            code == self.0,
    {
        self.0
    }

    /// The sentence that describes this status. A code outside the table
    /// gets a sentence that quotes its number.
    pub fn message(&self) -> (text: String)
        ensures
            text@ == message_of(self.0),
    {
        let code = self.0;
        if code == ADLX_RESULT_ADLX_OK {
            String::from_str("This result indicates success")
        } else if code == ADLX_RESULT_ADLX_ALREADY_ENABLED {
            String::from_str("The asked action is already enabled")
        } else if code == ADLX_RESULT_ADLX_ALREADY_INITIALIZED {
            String::from_str(
                "This result indicates that ADLX has a unspecified type of initialization",
            )
        } else if code == ADLX_RESULT_ADLX_FAIL {
            String::from_str("This result indicates an unspecified failure")
        } else if code == ADLX_RESULT_ADLX_INVALID_ARGS {
            String::from_str("The arguments are invalid")
        } else if code == ADLX_RESULT_ADLX_BAD_VER {
            String::from_str("The asked version is incompatible with the current version")
        } else if code == ADLX_RESULT_ADLX_UNKNOWN_INTERFACE {
            String::from_str("This result indicates that an unknown interface was asked")
        } else if code == ADLX_RESULT_ADLX_TERMINATED {
            String::from_str("The calls were made in an interface after ADLX was terminated")
        } else if code == ADLX_RESULT_ADLX_ADL_INIT_ERROR {
            String::from_str("The ADL initialization failed")
        } else if code == ADLX_RESULT_ADLX_NOT_FOUND {
            String::from_str("The item is not found")
        } else if code == ADLX_RESULT_ADLX_INVALID_OBJECT {
            String::from_str("The method was called into an invalid object")
        } else if code == ADLX_RESULT_ADLX_ORPHAN_OBJECTS {
            String::from_str(
                "This result indicates that ADLX was terminated with outstanding ADLX objects. Any interface obtained from ADLX points to invalid memory and calls in their methods will result in unexpected behavior",
            )
        } else if code == ADLX_RESULT_ADLX_NOT_SUPPORTED {
            String::from_str("The asked feature is not supported")
        } else if code == ADLX_RESULT_ADLX_PENDING_OPERATION {
            String::from_str(
                "This result indicates a failure due to an operation currently in progress",
            )
        } else if code == ADLX_RESULT_ADLX_GPU_INACTIVE {
            String::from_str("The GPU is inactive")
        } else {
            let mut text = String::from_str("Unknown ADLX_RESULT `");
            let number = decimal_string(code);
            text.append(number.as_str());
            text.append("`");
            text
        }
    }

    /// The text a debugger shows: the sentence of `message`, wrapped in the
    /// name of the status type.
    pub fn debug_string(&self) -> (text: String)
        ensures
            text@ == "ADLX_RESULT("@ + message_of(self.0) + ")"@,
    {
        let mut text = String::from_str("ADLX_RESULT(");
        let sentence = self.message();
        text.append(sentence.as_str());
        text.append(")");
        text
    }
}

/// Maps a status code to success, or to the symbolic name of the failure.
/// A code without a name gets a text that quotes its number.
pub fn adlx_result_to_error(res: i32) -> (r: Result<(), String>)
    ensures
        res == ADLX_RESULT_ADLX_OK <==> r is Ok,
        r matches Err(name) ==> name@ == name_of(res),
{
    if res == ADLX_RESULT_ADLX_OK {
        Ok(())
    } else if res == ADLX_RESULT_ADLX_ALREADY_ENABLED {
        Err(String::from_str("ADLX_RESULT_ADLX_ALREADY_ENABLED"))
    } else if res == ADLX_RESULT_ADLX_ALREADY_INITIALIZED {
        Err(String::from_str("ADLX_RESULT_ADLX_ALREADY_INITIALIZED"))
    } else if res == ADLX_RESULT_ADLX_FAIL {
        Err(String::from_str("ADLX_RESULT_ADLX_FAIL"))
    } else if res == ADLX_RESULT_ADLX_INVALID_ARGS {
        Err(String::from_str("ADLX_RESULT_ADLX_INVALID_ARGS"))
    } else if res == ADLX_RESULT_ADLX_BAD_VER {
        Err(String::from_str("ADLX_RESULT_ADLX_BAD_VER"))
    } else if res == ADLX_RESULT_ADLX_UNKNOWN_INTERFACE {
        Err(String::from_str("ADLX_RESULT_ADLX_UNKNOWN_INTERFACE"))
    } else if res == ADLX_RESULT_ADLX_TERMINATED {
        Err(String::from_str("ADLX_RESULT_ADLX_TERMINATED"))
    } else if res == ADLX_RESULT_ADLX_ADL_INIT_ERROR {
        Err(String::from_str("ADLX_RESULT_ADLX_ADL_INIT_ERROR"))
    } else if res == ADLX_RESULT_ADLX_NOT_FOUND {
        Err(String::from_str("ADLX_RESULT_ADLX_NOT_FOUND"))
    } else if res == ADLX_RESULT_ADLX_INVALID_OBJECT {
        Err(String::from_str("ADLX_RESULT_ADLX_INVALID_OBJECT"))
    } else if res == ADLX_RESULT_ADLX_ORPHAN_OBJECTS {
        Err(String::from_str("ADLX_RESULT_ADLX_ORPHAN_OBJECTS"))
    } else if res == ADLX_RESULT_ADLX_NOT_SUPPORTED {
        Err(String::from_str("ADLX_RESULT_ADLX_NOT_SUPPORTED"))
    } else if res == ADLX_RESULT_ADLX_PENDING_OPERATION {
        Err(String::from_str("ADLX_RESULT_ADLX_PENDING_OPERATION"))
    } else if res == ADLX_RESULT_ADLX_GPU_INACTIVE {
        Err(String::from_str("ADLX_RESULT_ADLX_GPU_INACTIVE"))
    } else {
        let mut text = String::from_str("Unknown ADLX_RESULT `");
        let number = decimal_string(res);
        text.append(number.as_str());
        text.append("`");
        Err(text)
    }
}

/// Every status code has a sentence, and the sentence is never empty.
pub proof fn lemma_message_is_not_empty(code: i32)
    ensures
        message_of(code).len() > 0,
{
    reveal_strlit("This result indicates success");
    reveal_strlit("The asked action is already enabled");
    reveal_strlit("This result indicates that ADLX has a unspecified type of initialization");
    reveal_strlit("This result indicates an unspecified failure");
    reveal_strlit("The arguments are invalid");
    reveal_strlit("The asked version is incompatible with the current version");
    reveal_strlit("This result indicates that an unknown interface was asked");
    reveal_strlit("The calls were made in an interface after ADLX was terminated");
    reveal_strlit("The ADL initialization failed");
    reveal_strlit("The item is not found");
    reveal_strlit("The method was called into an invalid object");
    reveal_strlit(
        "This result indicates that ADLX was terminated with outstanding ADLX objects. Any interface obtained from ADLX points to invalid memory and calls in their methods will result in unexpected behavior",
    );
    reveal_strlit("The asked feature is not supported");
    reveal_strlit("This result indicates a failure due to an operation currently in progress");
    reveal_strlit("The GPU is inactive");
    reveal_strlit("Unknown ADLX_RESULT `");
}

/// The sentence of a status code outside the table holds the code's decimal
/// digits, right behind its first 21 characters; and the text that stands
/// for the name of such a code is that sentence.
pub proof fn lemma_unknown_message_quotes_code(code: i32)
    requires
        !is_known_code(code),
    ensures
        message_of(code).len() == 22 + decimal(code as int).len(),
        message_of(code).subrange(21, 21 + decimal(code as int).len() as int) == decimal(
            code as int,
        ),
        name_of(code) == message_of(code),
{
    reveal_strlit("Unknown ADLX_RESULT `");
    reveal_strlit("`");
    let number = decimal(code as int);
    assert(message_of(code).subrange(21, 21 + number.len() as int) =~= number);
}

} // verus!
