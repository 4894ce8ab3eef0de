//! Interface identities on the wire: null-terminated UTF-16.
//!
//! The foreign library names an interface by a wide-character string. This
//! module turns an identity into that form and defines which name a buffer
//! spells to a reader that stops at the first zero.

use vstd::prelude::*;
use vstd::string::*;

verus! {

/// The UTF-16 code units of one character: itself when it fits in 16 bits,
/// a surrogate pair otherwise.
pub open spec fn utf16_of_char(c: char) -> Seq<u16> {
    let v = c as u32;
    if v < 0x10000 {
        seq![v as u16]
    } else {
        seq![(0xD800 + (v - 0x10000) / 0x400) as u16, (0xDC00 + (v - 0x10000) % 0x400) as u16]
    }
}

/// The UTF-16 code units of a text.
pub open spec fn utf16(s: Seq<char>) -> Seq<u16>
    decreases s.len(),
{
    if s.len() == 0 {
        Seq::empty()
    } else {
        utf16(s.drop_last()) + utf16_of_char(s.last())
    }
}

/// A text as the foreign library reads it: its UTF-16 code units and a
/// closing zero.
pub open spec fn wide(s: Seq<char>) -> Seq<u16> {
    utf16(s).push(0u16)
}

/// The name that a buffer spells: the code units before its first zero.
pub open spec fn spelled(buffer: Seq<u16>) -> Seq<u16>
    decreases buffer.len(),
{
    if buffer.len() == 0 || buffer[0] == 0 {
        Seq::empty()
    } else {
        seq![buffer[0]] + spelled(buffer.drop_first())
    }
}

/// The name under which the foreign library knows the identity `s`.
pub open spec fn wire_name(s: Seq<char>) -> Seq<u16> {
    spelled(wide(s))
}

/// Whether every character of a text takes one code unit and none is the
/// null character: the text is spelled by its wide form as it stands.
pub open spec fn is_plain(s: Seq<char>) -> bool {
    forall|i: int| 0 <= i < s.len() ==> 0 < ((#[trigger] s[i]) as u32) < 0x10000
}

/// The UTF-16 form of a plain text has one code unit for each character:
/// the number of the character.
pub proof fn lemma_utf16_of_plain(s: Seq<char>)
    requires
        is_plain(s),
    ensures
        utf16(s).len() == s.len(),
        forall|i: int| 0 <= i < s.len() ==> (#[trigger] utf16(s)[i]) == s[i] as u32 as u16,
    decreases s.len(),
{
    if s.len() > 0 {
        let front = s.drop_last();
        assert(is_plain(front)) by {
            assert forall|i: int| 0 <= i < front.len() implies 0 < ((#[trigger] front[i]) as u32)
                < 0x10000 by {
                assert(front[i] == s[i]);
            }
        }
        lemma_utf16_of_plain(front);
        assert(0 < (s.last() as u32) < 0x10000);
        assert forall|i: int| 0 <= i < s.len() implies (#[trigger] utf16(s)[i]) == s[i] as u32
            as u16 by {
            if i < front.len() {
                assert(utf16(s)[i] == utf16(front)[i]);
                assert(front[i] == s[i]);
            }
        }
    }
}

/// A buffer that holds no zero but the one at its end spells all that
/// stands before that zero.
pub proof fn lemma_spelled_to_the_end(name: Seq<u16>)
    requires
        forall|i: int| 0 <= i < name.len() ==> name[i] != 0,
    ensures
        spelled(name.push(0u16)) == name,
    decreases name.len(),
{
    let buffer = name.push(0u16);
    if name.len() == 0 {
        assert(buffer[0] == 0);
        assert(spelled(buffer) =~= name);
    } else {
        assert(buffer[0] == name[0]);
        assert(buffer.drop_first() =~= name.drop_first().push(0u16));
        lemma_spelled_to_the_end(name.drop_first());
        assert(spelled(buffer) =~= name);
    }
}

/// The name of a plain text on the wire has one code unit for each
/// character: the number of the character.
pub proof fn lemma_wire_name_of_plain(s: Seq<char>)
    requires
        is_plain(s),
    ensures
        wire_name(s) == utf16(s),
        wire_name(s).len() == s.len(),
        forall|i: int| 0 <= i < s.len() ==> (#[trigger] wire_name(s)[i]) == s[i] as u32 as u16,
{
    lemma_utf16_of_plain(s);
    assert forall|i: int| 0 <= i < utf16(s).len() implies utf16(s)[i] != 0 by {
        assert(0 < (s[i] as u32) < 0x10000);
    }
    lemma_spelled_to_the_end(utf16(s));
}

/// Two plain texts that differ have different names on the wire.
pub proof fn lemma_wire_names_differ(a: Seq<char>, b: Seq<char>)
    requires
        is_plain(a),
        is_plain(b),
        a != b,
    ensures
        wire_name(a) != wire_name(b),
{
    lemma_wire_name_of_plain(a);
    lemma_wire_name_of_plain(b);
    if wire_name(a) == wire_name(b) {
        assert(a.len() == b.len());
        assert forall|i: int| 0 <= i < a.len() implies a[i] == b[i] by {
            let x = a[i] as u32;
            let y = b[i] as u32;
            assert(0 < x < 0x10000 && 0 < y < 0x10000);
            assert(wire_name(a)[i] == x as u16 && wire_name(b)[i] == y as u16);
            assert(x as u16 as u32 == x && y as u16 as u32 == y);
            vstd::utf8::char_u32_cast(a[i], x);
            vstd::utf8::char_u32_cast(b[i], y);
        }
        assert(a =~= b);
    }
}

/// Encodes a text as null-terminated UTF-16.
pub fn encode_wide(s: &str) -> (buffer: Vec<u16>)
    ensures
        buffer@ == wide(s@),
        buffer@.len() > 0,
        buffer@.last() == 0,
{
    let n = s.unicode_len();
    let mut buffer: Vec<u16> = Vec::new();
    let mut i: usize = 0;
    while i < n
        invariant
            n == s@.len(),
            i <= n,
            buffer@ == utf16(s@.take(i as int)),
        decreases n - i,
    {
        let c = s.get_char(i);
        let v: u32 = c as u32;
        proof {
            assert(s@.take(i + 1).drop_last() =~= s@.take(i as int));
            assert(s@.take(i + 1).last() == c);
        }
        if v < 0x10000 {
            buffer.push(v as u16);
        } else {
            let w: u32 = v - 0x10000;
            buffer.push((0xD800 + w / 0x400) as u16);
            buffer.push((0xDC00 + w % 0x400) as u16);
        }
        assert(buffer@ =~= utf16(s@.take(i + 1)));
        i = i + 1;
    }
    assert(s@.take(n as int) =~= s@);
    buffer.push(0u16);
    buffer
}

/// Reads the name that a buffer spells.
pub fn spell(buffer: &Vec<u16>) -> (name: Vec<u16>)
    ensures
        name@ == spelled(buffer@),
{
    let mut name: Vec<u16> = Vec::new();
    let mut i: usize = 0;
    proof {
        assert(buffer@.skip(0) =~= buffer@);
        assert(name@ + spelled(buffer@) =~= spelled(buffer@));
    }
    while i < buffer.len() && buffer[i] != 0
        invariant
            i <= buffer@.len(),
            spelled(buffer@) == name@ + spelled(buffer@.skip(i as int)),
        decreases buffer@.len() - i,
    {
        proof {
            let rest = buffer@.skip(i as int);
            assert(rest.drop_first() =~= buffer@.skip(i + 1));
            assert(
                name@.push(buffer@[i as int]) + spelled(buffer@.skip(i + 1)) =~= name@ + spelled(
                    rest,
                )
            );
        }
        name.push(buffer[i]);
        i = i + 1;
    }
    proof {
        assert(spelled(buffer@.skip(i as int)) =~= Seq::<u16>::empty());
        assert(name@ + Seq::<u16>::empty() =~= name@);
    }
    name
}

/// Whether two names hold the same code units.
pub fn same_name(a: &Vec<u16>, b: &Vec<u16>) -> (same: bool)
    ensures
        same == (a@ == b@),
{
    if a.len() != b.len() {
        return false;
    }
    let mut i: usize = 0;
    while i < a.len()
        invariant
            a@.len() == b@.len(),
            i <= a@.len(),
            a@.take(i as int) == b@.take(i as int),
        decreases a@.len() - i,
    {
        if a[i] != b[i] {
            return false;
        }
        assert(a@.take(i + 1) =~= a@.take(i as int).push(a@[i as int]));
        assert(b@.take(i + 1) =~= b@.take(i as int).push(b@[i as int]));
        i = i + 1;
    }
    assert(a@.take(a@.len() as int) =~= a@);
    assert(b@.take(b@.len() as int) =~= b@);
    true
}

} // verus!
