//! Whitespace and blank text, as the dictation worker needs them to tell a
//! silent recording from a transcript worth polishing.
use vstd::prelude::*;

verus! {

/// The Unicode `White_Space` property, which is what `char::is_whitespace`
/// and `str::trim` go by: U+0009..U+000D, U+0020, U+0085, U+00A0, U+1680,
/// U+2000..U+200A, U+2028, U+2029, U+202F, U+205F and U+3000.
pub open spec fn is_white_space(c: char) -> bool {
    let v = c as u32;
    ||| 0x9 <= v <= 0xd
    ||| v == 0x20
    ||| v == 0x85
    ||| v == 0xa0
    ||| v == 0x1680
    ||| 0x2000 <= v <= 0x200a
    ||| v == 0x2028
    ||| v == 0x2029
    ||| v == 0x202f
    ||| v == 0x205f
    ||| v == 0x3000
}

/// Text is blank when trimming its whitespace leaves nothing: every
/// character of it is whitespace (the empty text included).
pub open spec fn is_blank(s: Seq<char>) -> bool {
    forall|i: int| 0 <= i < s.len() ==> is_white_space(#[trigger] s[i])
}

/// Whether `c` is a Unicode whitespace character.
pub fn is_whitespace_char(c: char) -> (b: bool)
    ensures
        b == is_white_space(c),
{
    let v: u32 = c as u32;
    (0x9 <= v && v <= 0xd) || v == 0x20 || v == 0x85 || v == 0xa0 || v == 0x1680 || (0x2000 <= v
        && v <= 0x200a) || v == 0x2028 || v == 0x2029 || v == 0x202f || v == 0x205f || v == 0x3000
}

/// Whether `text` is empty once its leading and trailing whitespace is
/// trimmed, that is, whether it holds nothing but whitespace.
pub fn is_blank_text(text: &str) -> (b: bool)
    ensures
        b == is_blank(text@),
{
    let mut blank: bool = true;
    for c in it: text.chars()
        invariant
            it.seq() == text@,
            blank == (forall|j: int| 0 <= j < it.index() ==> is_white_space(#[trigger] text@[j])),
    {
        if !is_whitespace_char(c) {
            blank = false;
        }
    }
    blank
}

/// Blankness splits over concatenation: two texts joined are blank exactly
/// when both are; the empty text is blank; a single character is blank
/// exactly when it is whitespace.
pub proof fn blank_concatenation(s: Seq<char>, t: Seq<char>, c: char)
    ensures
        is_blank(s + t) <==> is_blank(s) && is_blank(t),
        is_blank(Seq::<char>::empty()),
        is_blank(seq![c]) <==> is_white_space(c),
{
    if is_blank(s + t) {
        assert forall|i: int| 0 <= i < s.len() implies is_white_space(#[trigger] s[i]) by {
            assert((s + t)[i] == s[i]);
        }
        assert forall|i: int| 0 <= i < t.len() implies is_white_space(#[trigger] t[i]) by {
            assert((s + t)[s.len() + i] == t[i]);
        }
    }
    if is_blank(s) && is_blank(t) {
        assert forall|i: int| 0 <= i < (s + t).len() implies is_white_space(#[trigger] (s + t)[i]) by {
            if i < s.len() {
                assert((s + t)[i] == s[i]);
            } else {
                assert((s + t)[i] == t[i - s.len()]);
            }
        }
    }
    if is_white_space(c) {
        assert(seq![c][0] == c);
    }
    assert(seq![c][0] == c);
}

/// The ASCII whitespace characters (tab, line feed, vertical tab, form feed,
/// carriage return, space) are whitespace; every visible ASCII character
/// (U+0021..U+007E) and every ASCII control character other than those is
/// not.
pub proof fn ascii_whitespace(c: char)
    requires
        (c as u32) < 0x80,
    ensures
        is_white_space(c) <==> (c as u32 == 0x20 || 0x09 <= c as u32 <= 0x0d),
        0x21 <= c as u32 <= 0x7e ==> !is_white_space(c),
{
}

/// The code points that count as whitespace, in increasing order: the
/// Unicode `White_Space` property, 25 code points in all.
pub open spec fn white_space_code_points() -> Seq<u32> {
    seq![
        0x09u32, 0x0a, 0x0b, 0x0c, 0x0d, 0x20, 0x85, 0xa0, 0x1680, 0x2000, 0x2001, 0x2002, 0x2003,
        0x2004, 0x2005, 0x2006, 0x2007, 0x2008, 0x2009, 0x200a, 0x2028, 0x2029, 0x202f, 0x205f,
        0x3000,
    ]
}

/// A character is whitespace exactly when its code point is one of the 25
/// listed in [`white_space_code_points`].
pub proof fn white_space_is_the_listed_code_points(c: char)
    ensures
        is_white_space(c) <==> white_space_code_points().contains(c as u32),
        white_space_code_points().len() == 25,
{
    let l = white_space_code_points();
    let v = c as u32;
    if is_white_space(c) {
        if 0x9 <= v <= 0xd {
            assert(l[(v - 0x9) as int] == v);
        } else if v == 0x20 {
            assert(l[5] == v);
        } else if v == 0x85 {
            assert(l[6] == v);
        } else if v == 0xa0 {
            assert(l[7] == v);
        } else if v == 0x1680 {
            assert(l[8] == v);
        } else if 0x2000 <= v <= 0x200a {
            assert(l[(v - 0x2000 + 9) as int] == v);
        } else if v == 0x2028 {
            assert(l[20] == v);
        } else if v == 0x2029 {
            assert(l[21] == v);
        } else if v == 0x202f {
            assert(l[22] == v);
        } else if v == 0x205f {
            assert(l[23] == v);
        } else {
            assert(l[24] == v);
        }
    }
}

} // verus!
