use adlx::result::{adlx_result_to_error, decimal_string, Error};

const SENTENCES: [&str; 15] = [
    "This result indicates success",
    "The asked action is already enabled",
    "This result indicates that ADLX has a unspecified type of initialization",
    "This result indicates an unspecified failure",
    "The arguments are invalid",
    "The asked version is incompatible with the current version",
    "This result indicates that an unknown interface was asked",
    "The calls were made in an interface after ADLX was terminated",
    "The ADL initialization failed",
    "The item is not found",
    "The method was called into an invalid object",
    "This result indicates that ADLX was terminated with outstanding ADLX objects. Any interface obtained from ADLX points to invalid memory and calls in their methods will result in unexpected behavior",
    "The asked feature is not supported",
    "This result indicates a failure due to an operation currently in progress",
    "The GPU is inactive",
];

const NAMES: [&str; 15] = [
    "",
    "ADLX_RESULT_ADLX_ALREADY_ENABLED",
    "ADLX_RESULT_ADLX_ALREADY_INITIALIZED",
    "ADLX_RESULT_ADLX_FAIL",
    "ADLX_RESULT_ADLX_INVALID_ARGS",
    "ADLX_RESULT_ADLX_BAD_VER",
    "ADLX_RESULT_ADLX_UNKNOWN_INTERFACE",
    "ADLX_RESULT_ADLX_TERMINATED",
    "ADLX_RESULT_ADLX_ADL_INIT_ERROR",
    "ADLX_RESULT_ADLX_NOT_FOUND",
    "ADLX_RESULT_ADLX_INVALID_OBJECT",
    "ADLX_RESULT_ADLX_ORPHAN_OBJECTS",
    "ADLX_RESULT_ADLX_NOT_SUPPORTED",
    "ADLX_RESULT_ADLX_PENDING_OPERATION",
    "ADLX_RESULT_ADLX_GPU_INACTIVE",
];

#[test]
fn success_maps_to_ok() {
    assert_eq!(Error::from_result(0), Ok(()));
}

#[test]
fn failure_carries_the_code() {
    for code in [1, 3, 6, 14, 15, -1, i32::MAX, i32::MIN] {
        assert_eq!(Error::from_result(code), Err(Error(code)));
        assert_eq!(Error(code).code(), code);
    }
}

#[test]
fn slot_is_handed_out_on_success_only() {
    assert_eq!(Error::from_result_with_assume_init_on_success(0, 17u32), Ok(17));
    assert_eq!(Error::from_result_with_assume_init_on_success(12, 17u32), Err(Error(12)));
    assert_eq!(
        Error::from_result_with_assume_init_on_success(0, String::from("Radeon")),
        Ok(String::from("Radeon"))
    );
}

#[test]
fn every_known_code_has_its_sentence() {
    for (code, sentence) in SENTENCES.iter().enumerate() {
        let text = Error(code as i32).message();
        assert!(!text.is_empty());
        assert_eq!(&text, sentence);
    }
}

#[test]
fn unknown_code_is_quoted_in_the_message() {
    assert_eq!(Error(15).message(), "Unknown ADLX_RESULT `15`");
    assert_eq!(Error(42).message(), "Unknown ADLX_RESULT `42`");
    assert_eq!(Error(-7).message(), "Unknown ADLX_RESULT `-7`");
    assert_eq!(Error(i32::MAX).message(), "Unknown ADLX_RESULT `2147483647`");
    assert_eq!(Error(i32::MIN).message(), "Unknown ADLX_RESULT `-2147483648`");
}

#[test]
fn debug_string_wraps_the_sentence() {
    assert_eq!(Error(4).debug_string(), "ADLX_RESULT(The arguments are invalid)");
    assert_eq!(Error(100).debug_string(), "ADLX_RESULT(Unknown ADLX_RESULT `100`)");
}

#[test]
fn decimal_of_integers() {
    for value in [0, 1, 9, 10, 11, 99, 100, 101, 1000, 65535, -1, -10, -999, i32::MAX, i32::MIN] {
        assert_eq!(decimal_string(value), format!("{}", value));
    }
}

#[test]
fn names_of_failures() {
    assert_eq!(adlx_result_to_error(0), Ok(()));
    for code in 1..15 {
        assert_eq!(adlx_result_to_error(code), Err(NAMES[code as usize].to_string()));
    }
    assert_eq!(adlx_result_to_error(15), Err("Unknown ADLX_RESULT `15`".to_string()));
    assert_eq!(adlx_result_to_error(-1), Err("Unknown ADLX_RESULT `-1`".to_string()));
    assert_eq!(adlx_result_to_error(9999), Err("Unknown ADLX_RESULT `9999`".to_string()));
    assert!(adlx_result_to_error(i32::MIN).unwrap_err().contains("-2147483648"));
}
