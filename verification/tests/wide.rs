use adlx::wide::{encode_wide, same_name, spell};

#[test]
fn ascii_identity_is_widened_and_closed_by_zero() {
    assert_eq!(encode_wide("IADLXGPU"), vec![73, 65, 68, 76, 88, 71, 80, 85, 0]);
    assert_eq!(encode_wide(""), vec![0]);
}

#[test]
fn encoding_agrees_with_the_standard_library() {
    for text in ["IADLXInterface", "IADLX3DChill", "Grüße", "日本語", "a\u{10000}b", "\u{10FFFF}", "x\u{1F600}"] {
        let mut expected: Vec<u16> = text.encode_utf16().collect();
        expected.push(0);
        assert_eq!(encode_wide(text), expected);
    }
}

#[test]
fn a_character_past_the_basic_plane_takes_two_units() {
    assert_eq!(encode_wide("\u{1F600}"), vec![0xD83D, 0xDE00, 0]);
    assert_eq!(encode_wide("\u{10000}"), vec![0xD800, 0xDC00, 0]);
    assert_eq!(encode_wide("\u{FFFF}"), vec![0xFFFF, 0]);
}

#[test]
fn a_buffer_spells_what_stands_before_its_first_zero() {
    assert_eq!(spell(&vec![65, 66, 0]), vec![65, 66]);
    assert_eq!(spell(&vec![65, 0, 66, 0]), vec![65]);
    assert_eq!(spell(&vec![0]), Vec::<u16>::new());
    assert_eq!(spell(&vec![]), Vec::<u16>::new());
    assert_eq!(spell(&vec![65, 66]), vec![65, 66]);
    assert_eq!(spell(&encode_wide("IADLXList")), "IADLXList".encode_utf16().collect::<Vec<u16>>());
}

#[test]
fn names_are_compared_unit_by_unit() {
    assert!(same_name(&vec![1, 2, 3], &vec![1, 2, 3]));
    assert!(!same_name(&vec![1, 2, 3], &vec![1, 2, 4]));
    assert!(!same_name(&vec![1, 2, 3], &vec![1, 2]));
    assert!(same_name(&vec![], &vec![]));
}
