//! Text in the form that the platform takes it: UTF-16 with a zero behind
//! the last code unit.

use vstd::prelude::*;

verus! {

/// The UTF-16 code units of one character: the character itself where it
/// fits in 16 bits, a high and a low surrogate where it does not.
pub open spec fn utf16_of_char(c: char) -> Seq<u16> {
    let code: u32 = c as u32;
    if code < 0x1_0000 {
        seq![code as u16]
    } else {
        seq![
            (0xD800 + ((code - 0x1_0000) as u32 >> 10)) as u16,
            (0xDC00 + ((code - 0x1_0000) as u32 & 0x3FF)) as u16,
        ]
    }
}

/// The UTF-16 code units of a text.
pub open spec fn utf16(text: Seq<char>) -> Seq<u16>
    decreases text.len(),
{
    if text.len() == 0 {
        Seq::empty()
    } else {
        utf16(text.drop_last()) + utf16_of_char(text.last())
    }
}

/// A text as the platform takes it: its UTF-16 code units and a zero.
pub fn create_wide_char(string: &str) -> (wide: Vec<u16>)
    ensures
        wide@ == utf16(string@).push(0u16),
{
    let mut result: Vec<u16> = Vec::new();
    proof {
        vstd::string::axiom_spec_iter(string);
        assert(string@.take(0) == Seq::<char>::empty());
    }
    for c in chars: string.chars()
        invariant
            chars.seq() == string@,
            result@ == utf16(string@.take(chars.index())),
    {
        proof {
            vstd::utf8::char_is_scalar(c);
            let done = chars.index();
            assert(string@.take(done + 1).drop_last() == string@.take(done));
            assert(string@.take(done + 1).last() == c);
        }
        let code: u32 = c as u32;
        if code < 0x1_0000 {
            result.push(code as u16);
        } else {
            let rest: u32 = code - 0x1_0000;
            let high: u32 = rest >> 10;
            let low: u32 = rest & 0x3FF;
            assert(high < 0x400 && low < 0x400) by (bit_vector)
                requires
                    rest < 0x10_0000,
                    high == rest >> 10,
                    low == rest & 0x3FF,
            ;
            result.push((0xD800 + high) as u16);
            result.push((0xDC00 + low) as u16);
        }
    }
    proof {
        assert(string@.take(string@.len() as int) == string@);
    }
    result.push(0);
    result
}

} // verus!
