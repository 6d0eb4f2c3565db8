//! Text: what std says of characters and strings, and small tools for
//! building and aligning text.

use vstd::prelude::*;

verus! {

/// Whether a character is white space to std: whether it has the Unicode
/// property `White_Space`.
pub uninterp spec fn white_space(c: char) -> bool;

/// The upper case of a text, as std maps it: character by character after
/// the Unicode tables, where one character can become several.
pub uninterp spec fn uppercased(text: Seq<char>) -> Seq<char>;

/// `char::is_whitespace` of std. The answer is a function of the character
/// alone; the table behind it is not written out here.
pub assume_specification[ char::is_whitespace ](c: char) -> (blank: bool)
    ensures
        blank == white_space(c),
;

/// `str::to_uppercase` of std. The result is a function of the text alone;
/// the tables behind it are not written out here.
pub assume_specification[ str::to_uppercase ](s: &str) -> (upper: String)
    ensures
        upper@ == uppercased(s@),
;

/// `String::push` of std: the character is added at the end.
pub assume_specification[ String::push ](s: &mut String, c: char)
    ensures
        final(s)@ == old(s)@.push(c),
;

/// The texts of a sequence of strings.
pub open spec fn texts(strings: Seq<String>) -> Seq<Seq<char>> {
    strings.map_values(|text: String| text@)
}

/// A new string that reads `head` and then `tail`.
pub fn joined(head: &str, tail: &str) -> (text: String)
    ensures
        text@ == head@ + tail@,
{
    let mut text = String::from_str(head);
    text.append(tail);
    text
}

/// So many spaces.
pub open spec fn spaces(count: nat) -> Seq<char> {
    Seq::new(count, |i: int| ' ')
}

/// The text moved to the right end of a field of the given width: spaces
/// come first where the text is shorter than the field, and the text stands
/// unchanged where it is not.
pub open spec fn right_aligned(text: Seq<char>, width: nat) -> Seq<char> {
    if text.len() >= width {
        text
    } else {
        spaces((width - text.len()) as nat) + text
    }
}

/// The text at the right end of a field of `width` characters.
pub fn align_right(text: &str, width: usize) -> (field: String)
    ensures
        field@ == right_aligned(text@, width as nat),
{
    let length = text.unicode_len();
    let mut field = String::new();
    let mut filled: usize = 0;
    if length < width {
        let gap = width - length;
        while filled < gap
            invariant
                filled <= gap,
                field@ == spaces(filled as nat),
            decreases gap - filled,
        {
            proof {
                reveal_strlit(" ");
            }
            field.append(" ");
            filled += 1;
            assert(field@ =~= spaces(filled as nat));
        }
    } else {
        assert(field@ =~= Seq::<char>::empty());
    }
    field.append(text);
    assert(field@ =~= right_aligned(text@, width as nat));
    field
}

/// The text moved to the left end of a field of the given width: spaces
/// follow where the text is shorter than the field, and the text stands
/// unchanged where it is not.
pub open spec fn left_aligned(text: Seq<char>, width: nat) -> Seq<char> {
    if text.len() >= width {
        text
    } else {
        text + spaces((width - text.len()) as nat)
    }
}

/// The text at the left end of a field of `width` characters.
pub fn align_left(text: &str, width: usize) -> (field: String)
    ensures
        field@ == left_aligned(text@, width as nat),
{
    let length = text.unicode_len();
    let mut field = String::from_str(text);
    if length < width {
        let gap = width - length;
        let mut filled: usize = 0;
        while filled < gap
            invariant
                filled <= gap,
                field@ == text@ + spaces(filled as nat),
            decreases gap - filled,
        {
            proof {
                reveal_strlit(" ");
            }
            field.append(" ");
            filled += 1;
            assert(field@ =~= text@ + spaces(filled as nat));
        }
    }
    assert(field@ =~= left_aligned(text@, width as nat));
    field
}

/// The digit for a number below ten.
pub open spec fn digit(d: nat) -> char {
    if d == 0 {
        '0'
    } else if d == 1 {
        '1'
    } else if d == 2 {
        '2'
    } else if d == 3 {
        '3'
    } else if d == 4 {
        '4'
    } else if d == 5 {
        '5'
    } else if d == 6 {
        '6'
    } else if d == 7 {
        '7'
    } else if d == 8 {
        '8'
    } else {
        '9'
    }
}

/// A number in decimal digits, without leading zeros.
pub open spec fn decimal(n: nat) -> Seq<char>
    decreases n,
{
    if n < 10 {
        seq![digit(n)]
    } else {
        decimal(n / 10).push(digit(n % 10))
    }
}

/// The digit for a number below ten.
fn digit_of(d: usize) -> (c: char)
    requires
        d < 10,
    ensures
        c == digit(d as nat),
{
    if d == 0 {
        '0'
    } else if d == 1 {
        '1'
    } else if d == 2 {
        '2'
    } else if d == 3 {
        '3'
    } else if d == 4 {
        '4'
    } else if d == 5 {
        '5'
    } else if d == 6 {
        '6'
    } else if d == 7 {
        '7'
    } else if d == 8 {
        '8'
    } else {
        '9'
    }
}

/// A number in decimal digits.
pub fn write_decimal(n: usize) -> (text: String)
    ensures
        text@ == decimal(n as nat),
    decreases n,
{
    if n < 10 {
        let mut text = String::new();
        text.push(digit_of(n));
        assert(text@ =~= seq![digit(n as nat)]);
        text
    } else {
        let mut text = write_decimal(n / 10);
        text.push(digit_of(n % 10));
        text
    }
}

} // verus!
