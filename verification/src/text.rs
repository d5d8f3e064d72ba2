use vstd::prelude::*;

verus! {

/// Whether `c` has the Unicode `White_Space` property: tab, line feed,
/// vertical tab, form feed, carriage return, space, next line, no-break space,
/// Ogham space mark, the spaces from en quad to hair space, line separator,
/// paragraph separator, narrow no-break space, medium mathematical space and
/// ideographic space. These are the characters `char::is_whitespace` accepts.
pub open spec fn white_space(c: char) -> bool {
    let v = c as u32;
    ||| 0x09 <= v <= 0x0d
    ||| v == 0x20
    ||| v == 0x85
    ||| v == 0xa0
    ||| v == 0x1680
    ||| 0x2000 <= v <= 0x200a
    ||| v == 0x2028
    ||| v == 0x2029
    ||| v == 0x202f
    ||| v == 0x205f
    ||| v == 0x3000
}

/// Law: exactly the 25 code points of the Unicode `White_Space` property are
/// white space, one by one.
pub proof fn law_white_space_code_points(c: char)
    ensures
        white_space(c) <==> {
            let v = c as u32;
            ||| v == 0x09 || v == 0x0a || v == 0x0b || v == 0x0c || v == 0x0d
            ||| v == 0x20 || v == 0x85 || v == 0xa0 || v == 0x1680
            ||| v == 0x2000 || v == 0x2001 || v == 0x2002 || v == 0x2003 || v == 0x2004 || v == 0x2005
            ||| v == 0x2006 || v == 0x2007 || v == 0x2008 || v == 0x2009 || v == 0x200a
            ||| v == 0x2028 || v == 0x2029 || v == 0x202f || v == 0x205f || v == 0x3000
        },
{
}

/// Whether `c` is white space; see `white_space`.
pub fn is_white_space(c: char) -> (white: bool)
    ensures
        white == white_space(c),
{
    let v = c as u32;
    if v < 0x80 {
        (0x09 <= v && v <= 0x0d) || v == 0x20
    } else {
        v == 0x85 || v == 0xa0 || v == 0x1680 || (0x2000 <= v && v <= 0x200a) || v == 0x2028
            || v == 0x2029 || v == 0x202f || v == 0x205f || v == 0x3000
    }
}

/// A text is blank when every character in it is white space (so the empty
/// text is blank). `str::trim` removes exactly such characters from both ends,
/// so a text is blank just when trimming it leaves nothing.
pub open spec fn blank(text: Seq<char>) -> bool {
    forall|i: int| 0 <= i < text.len() ==> #[trigger] white_space(text[i])
}

/// Whether `text` is blank.
pub fn is_blank(text: &str) -> (blank_text: bool)
    ensures
        blank_text == blank(text@),
{
    let n = text.unicode_len();
    let mut i: usize = 0;
    while i < n
        invariant
            n == text@.len(),
            i <= n,
            forall|j: int| 0 <= j < i ==> #[trigger] white_space(text@[j]),
        decreases n - i,
    {
        let c = text.get_char(i);
        if !is_white_space(c) {
            return false;
        }
        i = i + 1;
    }
    true
}

} // verus!
