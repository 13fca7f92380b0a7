//! Text as the kernel wants it: UTF-16 code units with a terminating NUL.

use vstd::prelude::*;
use vstd::string::StrSliceExecFns;

verus! {

/// The UTF-16 code units of one character: the character's own number below
/// the supplementary planes, a high and a low surrogate above.
pub open spec fn utf16_units(c: char) -> Seq<u16> {
    let code = c as int;
    if code < 0x1_0000 {
        seq![code as u16]
    } else {
        seq![(0xD800 + (code - 0x1_0000) / 0x400) as u16, (0xDC00 + (code - 0x1_0000) % 0x400) as u16]
    }
}

/// The UTF-16 code units of a text, character by character.
pub open spec fn utf16(text: Seq<char>) -> Seq<u16>
    decreases text.len(),
{
    if text.len() == 0 {
        Seq::empty()
    } else {
        utf16(text.drop_last()) + utf16_units(text.last())
    }
}

/// A text as a wide string: its UTF-16 code units and a NUL behind them.
pub open spec fn wide(text: Seq<char>) -> Seq<u16> {
    utf16(text).push(0)
}

/// An ASCII text has one code unit per character, the character's own
/// number.
pub proof fn lemma_utf16_of_ascii(text: Seq<char>)
    requires
        vstd::utf8::is_ascii_chars(text),
    ensures
        utf16(text).len() == text.len(),
        forall|i: int| 0 <= i < text.len() ==> utf16(text)[i] as int == text[i] as int,
    decreases text.len(),
{
    if text.len() > 0 {
        let front = text.drop_last();
        let last = text[text.len() - 1];
        lemma_utf16_of_ascii(front);
        assert('\0' <= last <= '\u{7f}');
        assert(utf16_units(last) =~= seq![last as int as u16]);
        assert forall|i: int| 0 <= i < text.len() implies utf16(text)[i] as int == text[i] as int by {
            if i < front.len() {
                assert(front[i] == text[i]);
            }
        }
    }
}

/// Encodes `text` as a wide string.
pub fn make_unicode_string(text: &str) -> (units: Vec<u16>)
    ensures
        units@ == wide(text@),
{
    let mut units: Vec<u16> = Vec::new();
    let length = text.unicode_len();
    let mut i: usize = 0;
    while i < length
        invariant
            length == text@.len(),
            i <= length,
            units@ == utf16(text@.take(i as int)),
        decreases length - i,
    {
        let c = text.get_char(i);
        let code: u32 = c as u32;
        proof {
            assert(text@.take(i + 1).drop_last() == text@.take(i as int));
            assert(text@.take(i + 1).last() == c);
        }
        if code < 0x1_0000 {
            units.push(code as u16);
        } else {
            let rest: u32 = code - 0x1_0000;
            units.push((0xD800 + rest / 0x400) as u16);
            units.push((0xDC00 + rest % 0x400) as u16);
        }
        i += 1;
    }
    proof {
        assert(text@.take(length as int) == text@);
    }
    units.push(0);
    units
}

} // verus!
