//! The wire form of text: UTF-16 code units closed by a zero unit.

use crate::error::LcdError;
use vstd::prelude::*;

verus! {

/// The UTF-16 code units of one character: the character itself where it
/// fits in sixteen bits, a high and a low surrogate otherwise.
pub open spec fn char_units(c: char) -> Seq<u16> {
    let n = c as int;
    if n < 0x1_0000 {
        seq![n as u16]
    } else {
        seq![(0xD800 + (n - 0x1_0000) / 0x400) as u16, (0xDC00 + (n - 0x1_0000) % 0x400) as u16]
    }
}

/// The UTF-16 code units of a text, character after character.
pub open spec fn utf16(s: Seq<char>) -> Seq<u16>
    decreases s.len(),
{
    if s.len() == 0 {
        Seq::empty()
    } else {
        utf16(s.drop_last()) + char_units(s.last())
    }
}

/// Whether a text holds U+0000.
pub open spec fn has_nul(s: Seq<char>) -> bool {
    s.contains('\0')
}

/// The wire form of a text: its code units, then the terminator.
pub open spec fn wire_form(s: Seq<char>) -> Seq<u16> {
    utf16(s).push(0u16)
}

/// No code unit of a character other than U+0000 is zero.
pub proof fn lemma_char_units_nonzero(c: char)
    requires
        c != '\0',
    ensures
        1 <= char_units(c).len() <= 2,
        forall|i: int| 0 <= i < char_units(c).len() ==> char_units(c)[i] != 0,
{
}

/// A text holds U+0000 exactly if its last character is U+0000 or the text
/// before that character holds it.
pub proof fn lemma_has_nul_last(s: Seq<char>)
    requires
        s.len() > 0,
    ensures
        has_nul(s) <==> has_nul(s.drop_last()) || s.last() == '\0',
{
    if has_nul(s) {
        let j = choose|j: int| 0 <= j < s.len() && s[j] == '\0';
        if j < s.len() - 1 {
            assert(s.drop_last()[j] == '\0');
        }
    }
    if has_nul(s.drop_last()) {
        let j = choose|j: int| 0 <= j < s.drop_last().len() && s.drop_last()[j] == '\0';
        assert(s[j] == '\0');
    }
    if s.last() == '\0' {
        assert(s[s.len() - 1] == '\0');
    }
}

/// A character that fits in sixteen bits is its own single code unit.
pub proof fn lemma_char_units_single(c: char)
    requires
        (c as int) < 0x1_0000,
    ensures
        char_units(c).len() == 1,
        char_units(c)[0] as int == c as int,
{
}

/// A text has at least one code unit for each character, and at most two.
pub proof fn lemma_utf16_len(s: Seq<char>)
    ensures
        s.len() <= utf16(s).len() <= 2 * s.len(),
    decreases s.len(),
{
    if s.len() > 0 {
        lemma_utf16_len(s.drop_last());
    }
}

/// A code unit of a text is zero only where a character is U+0000: the text
/// holds U+0000 exactly if one of its code units is zero.
pub proof fn lemma_utf16_nul(s: Seq<char>)
    ensures
        has_nul(s) <==> utf16(s).contains(0u16),
    decreases s.len(),
{
    if s.len() > 0 {
        let front = utf16(s.drop_last());
        let back = char_units(s.last());
        lemma_utf16_nul(s.drop_last());
        lemma_has_nul_last(s);
        if s.last() != '\0' {
            lemma_char_units_nonzero(s.last());
        }
        if utf16(s).contains(0u16) {
            let i = choose|i: int| 0 <= i < utf16(s).len() && utf16(s)[i] == 0u16;
            if i < front.len() {
                assert(front[i] == 0u16);
            } else {
                assert(back[i - front.len()] == 0u16);
            }
        }
        if front.contains(0u16) {
            let i = choose|i: int| 0 <= i < front.len() && front[i] == 0u16;
            assert(utf16(s)[i] == 0u16);
        }
        if s.last() == '\0' {
            assert(back[0] == 0u16);
            assert(utf16(s)[front.len() as int] == 0u16);
        }
    }
}

/// The wire form of a text is the text's code units and one zero unit
/// behind them; where the text is free of U+0000, that terminator is the
/// only zero.
pub proof fn lemma_wire_form(s: Seq<char>)
    ensures
        wire_form(s).len() == utf16(s).len() + 1,
        wire_form(s).drop_last() == utf16(s),
        wire_form(s).last() == 0u16,
        !has_nul(s) ==> forall|i: int| 0 <= i < utf16(s).len() ==> wire_form(s)[i] != 0u16,
{
    assert(wire_form(s).drop_last() =~= utf16(s));
    lemma_utf16_nul(s);
    if !has_nul(s) {
        assert forall|i: int| 0 <= i < utf16(s).len() implies wire_form(s)[i] != 0u16 by {
            if wire_form(s)[i] == 0u16 {
                assert(utf16(s)[i] == 0u16);
            }
        }
    }
}

/// A text whose characters all fit in sixteen bits has one code unit for
/// each character, the character itself; its wire form is longer by one.
pub proof fn lemma_utf16_single_units(s: Seq<char>)
    requires
        forall|i: int| 0 <= i < s.len() ==> (s[i] as int) < 0x1_0000,
    ensures
        utf16(s).len() == s.len(),
        wire_form(s).len() == s.len() + 1,
        forall|i: int| 0 <= i < s.len() ==> utf16(s)[i] as int == s[i] as int,
    decreases s.len(),
{
    if s.len() > 0 {
        let front = utf16(s.drop_last());
        let back = char_units(s.last());
        lemma_utf16_single_units(s.drop_last());
        assert((s[s.len() - 1] as int) < 0x1_0000);
        lemma_char_units_single(s.last());
        assert(utf16(s) == front + back);
        assert forall|i: int| 0 <= i < s.len() implies utf16(s)[i] as int == s[i] as int by {
            if i < s.len() - 1 {
                assert(utf16(s)[i] == front[i]);
                assert(s.drop_last()[i] == s[i]);
            } else {
                assert(utf16(s)[i] == back[0]);
            }
        }
    }
}

/// Encodes one character, appending its code units.
fn push_units(v: &mut Vec<u16>, c: char)
    ensures
        final(v)@ == old(v)@ + char_units(c),
{
    let n: u32 = c as u32;
    if n < 0x1_0000 {
        v.push(n as u16);
    } else {
        let m: u32 = n - 0x1_0000;
        v.push((0xD800 + m / 0x400) as u16);
        v.push((0xDC00 + m % 0x400) as u16);
    }
    assert(v@ =~= old(v)@ + char_units(c));
}

/// Encodes a text into its wire form.  A text that holds U+0000 is refused,
/// since the terminator would cut it short.
pub fn str_to_wchar(s: &str) -> (r: Result<Vec<u16>, LcdError>)
    ensures
        has_nul(s@) ==> r == Err::<Vec<u16>, LcdError>(LcdError::NullCharacter),
        !has_nul(s@) ==> r is Ok && r->Ok_0@ == wire_form(s@),
{
    let mut v: Vec<u16> = Vec::new();
    for c in it: s.chars()
        invariant
            it.seq() == s@,
            !has_nul(s@.take(it.index())),
            v@ == utf16(s@.take(it.index())),
    {
        proof {
            let i = it.index();
            assert(c == s@[i]);
            assert(s@.take(i + 1).drop_last() =~= s@.take(i));
            assert(s@.take(i + 1).last() == c);
        }
        if c == '\0' {
            return Err(LcdError::NullCharacter);
        }
        push_units(&mut v, c);
        proof {
            lemma_has_nul_last(s@.take(it.index() + 1));
        }
    }
    proof {
        assert(s@.take(s@.len() as int) =~= s@);
    }
    v.push(0);
    Ok(v)
}

} // verus!
