//! Colours and their text form.

use crate::text::digit_text;
#[allow(unused_imports)]
use crate::text::hex_char;
use vstd::prelude::*;
use vstd::string::*;

verus! {

/// A colour in eight bits per channel.
#[derive(Debug, Clone, Copy, PartialEq, Eq, Structural)]
pub struct Rgb {
    pub r: u8,
    pub g: u8,
    pub b: u8,
}

/// A text that is not six hexadecimal digits.
#[derive(Debug, Clone, Copy, PartialEq, Eq, Structural)]
pub struct InvalidColor;

/// The value of a hexadecimal digit of either case.
pub open spec fn hex_value(c: char) -> Option<int> {
    if '0' <= c <= '9' {
        Some(c as int - '0' as int)
    } else if 'a' <= c <= 'f' {
        Some(c as int - 'a' as int + 10)
    } else if 'A' <= c <= 'F' {
        Some(c as int - 'A' as int + 10)
    } else {
        None
    }
}

/// The value of the two hexadecimal digits at `at`.
pub open spec fn hex_pair(text: Seq<char>, at: int) -> int {
    16 * hex_value(text[at])->0 + hex_value(text[at + 1])->0
}

/// `text` is six hexadecimal digits.
pub open spec fn is_color(text: Seq<char>) -> bool {
    &&& text.len() == 6
    &&& forall|i: int| 0 <= i < 6 ==> hex_value(#[trigger] text[i]) is Some
}

/// `text` spells `color` as `RRGGBB`.
pub open spec fn spells(text: Seq<char>, color: Rgb) -> bool {
    &&& is_color(text)
    &&& color.r == hex_pair(text, 0)
    &&& color.g == hex_pair(text, 2)
    &&& color.b == hex_pair(text, 4)
}

/// `text` without one leading `#`, where it has one.
pub open spec fn without_hash(text: Seq<char>) -> Seq<char> {
    if text.len() > 0 && text[0] == '#' {
        text.skip(1)
    } else {
        text
    }
}

/// A byte as two hexadecimal digits.
pub open spec fn hex_byte(n: u8) -> Seq<char> {
    seq![hex_char(n as int / 16), hex_char(n as int % 16)]
}

/// The value of a hexadecimal digit.
fn digit_value(c: char) -> (value: Option<u8>)
    ensures
        match value {
            Some(v) => hex_value(c) == Some(v as int) && v < 16,
            None => hex_value(c) is None,
        },
{
    if '0' <= c && c <= '9' {
        Some((c as u32 - '0' as u32) as u8)
    } else if 'a' <= c && c <= 'f' {
        Some((c as u32 - 'a' as u32 + 10) as u8)
    } else if 'A' <= c && c <= 'F' {
        Some((c as u32 - 'A' as u32 + 10) as u8)
    } else {
        None
    }
}

/// The value of the two hexadecimal digits at `at`.
fn byte_at(text: &str, at: usize) -> (value: Option<u8>)
    requires
        at + 1 < text@.len() == 6,
    ensures
        match value {
            Some(v) => hex_value(text@[at as int]) is Some && hex_value(text@[at + 1]) is Some && v
                == hex_pair(text@, at as int),
            None => hex_value(text@[at as int]) is None || hex_value(text@[at + 1]) is None,
        },
{
    match (digit_value(text.get_char(at)), digit_value(text.get_char(at + 1))) {
        (Some(high), Some(low)) => Some(16 * high + low),
        _ => None,
    }
}

impl Rgb {
    /// Full intensity on every channel.
    pub open spec fn white_model() -> Rgb {
        Rgb { r: 255, g: 255, b: 255 }
    }

    /// Full intensity on every channel.
    pub fn white() -> (color: Rgb)
        ensures
            color == Self::white_model(),
    {
        Rgb { r: 255, g: 255, b: 255 }
    }

    /// Reads six hexadecimal digits `RRGGBB`, of either case.
    pub fn parse(text: &str) -> (color: Result<Rgb, InvalidColor>)
        ensures
            match color {
                Ok(c) => spells(text@, c),
                Err(_) => !is_color(text@),
            },
    {
        if text.unicode_len() != 6 {
            return Err(InvalidColor);
        }
        match (byte_at(text, 0), byte_at(text, 2), byte_at(text, 4)) {
            (Some(r), Some(g), Some(b)) => {
                assert forall|i: int| 0 <= i < 6 implies hex_value(#[trigger] text@[i]) is Some by {
                    assert(i == 0 || i == 1 || i == 2 || i == 3 || i == 4 || i == 5);
                }
                Ok(Rgb { r, g, b })
            },
            _ => Err(InvalidColor),
        }
    }

    /// The colour as `RRGGBB`.
    pub open spec fn hex_model(self) -> Seq<char> {
        hex_byte(self.r) + hex_byte(self.g) + hex_byte(self.b)
    }

    /// Writes the colour as `RRGGBB`, in upper case.
    pub fn to_hex(self) -> (text: String)
        ensures
            text@ == self.hex_model(),
    {
        let mut text: String = String::new();
        text.append(digit_text(self.r / 16));
        text.append(digit_text(self.r % 16));
        text.append(digit_text(self.g / 16));
        text.append(digit_text(self.g % 16));
        text.append(digit_text(self.b / 16));
        text.append(digit_text(self.b % 16));
        assert(text@ =~= self.hex_model());
        text
    }

    /// The written form of a colour spells that colour and no other.
    pub proof fn written_form_reads_back(self, other: Rgb)
        ensures
            spells(self.hex_model(), self),
            spells(self.hex_model(), other) ==> other == self,
    {
        let t = self.hex_model();
        assert(t.len() == 6);
        assert(t[0] == hex_char(self.r as int / 16));
        assert(t[1] == hex_char(self.r as int % 16));
        assert(t[2] == hex_char(self.g as int / 16));
        assert(t[3] == hex_char(self.g as int % 16));
        assert(t[4] == hex_char(self.b as int / 16));
        assert(t[5] == hex_char(self.b as int % 16));
        assert forall|i: int| 0 <= i < 6 implies hex_value(#[trigger] t[i]) is Some by {
            assert(i == 0 || i == 1 || i == 2 || i == 3 || i == 4 || i == 5);
        }
    }
}

/// Reads the colour of a light: `RRGGBB`, with or without one leading `#`.
pub fn parse_lighting_color(text: &str) -> (color: Result<Rgb, InvalidColor>)
    ensures
        match color {
            Ok(c) => spells(without_hash(text@), c),
            Err(_) => !is_color(without_hash(text@)),
        },
{
    let length: usize = text.unicode_len();
    if length > 0 && text.get_char(0) == '#' {
        Rgb::parse(text.substring_char(1, length))
    } else {
        Rgb::parse(text)
    }
}

/// The leading `#` changes nothing: a text that has none reads, or is refused,
/// the same with one in front.
pub proof fn hash_is_optional(text: Seq<char>)
    requires
        text.len() == 0 || text[0] != '#',
    ensures
        without_hash(seq!['#'] + text) == text,
        without_hash(text) == text,
{
    assert((seq!['#'] + text).skip(1) =~= text);
}

/// A colour has no leading `#` of its own.
pub proof fn color_has_no_hash(text: Seq<char>)
    requires
        is_color(text),
    ensures
        text[0] != '#',
{
    assert(hex_value(text[0]) is Some);
}

/// A character is a hexadecimal digit exactly where it is one of the ten
/// decimal ones or one of six letters of either case, and its value is its
/// place among them.
pub proof fn hexadecimal_digits_have_their_places(c: char, value: int)
    ensures
        hex_value(c) == Some(value) <==> {
            ||| 0 <= value < 10 && c as int == '0' as int + value
            ||| 10 <= value < 16 && c as int == 'a' as int + (value - 10)
            ||| 10 <= value < 16 && c as int == 'A' as int + (value - 10)
        },
{
}

/// A text spells a colour exactly where it is six characters that are, in order,
/// the high and the low digit of red, of green and of blue.
pub proof fn a_color_is_spelled_channel_by_channel(text: Seq<char>, color: Rgb)
    ensures
        spells(text, color) <==> {
            &&& text.len() == 6
            &&& hex_value(text[0]) == Some(color.r as int / 16)
            &&& hex_value(text[1]) == Some(color.r as int % 16)
            &&& hex_value(text[2]) == Some(color.g as int / 16)
            &&& hex_value(text[3]) == Some(color.g as int % 16)
            &&& hex_value(text[4]) == Some(color.b as int / 16)
            &&& hex_value(text[5]) == Some(color.b as int % 16)
        },
{
    if text.len() == 6 && hex_value(text[0]) is Some && hex_value(text[1]) is Some && hex_value(
        text[2],
    ) is Some && hex_value(text[3]) is Some && hex_value(text[4]) is Some && hex_value(
        text[5],
    ) is Some {
        assert forall|i: int| 0 <= i < 6 implies hex_value(#[trigger] text[i]) is Some by {
            assert(i == 0 || i == 1 || i == 2 || i == 3 || i == 4 || i == 5);
        }
    }
}

/// A text is read exactly where it is six hexadecimal digits, and then it spells
/// one colour.
pub proof fn six_digits_spell_one_color(text: Seq<char>, a: Rgb, b: Rgb)
    ensures
        is_color(text) <==> text.len() == 6 && hex_value(text[0]) is Some && hex_value(
            text[1],
        ) is Some && hex_value(text[2]) is Some && hex_value(text[3]) is Some && hex_value(
            text[4],
        ) is Some && hex_value(text[5]) is Some,
        spells(text, a) ==> is_color(text),
        spells(text, a) && spells(text, b) ==> a == b,
{
    if text.len() == 6 && hex_value(text[0]) is Some && hex_value(text[1]) is Some && hex_value(
        text[2],
    ) is Some && hex_value(text[3]) is Some && hex_value(text[4]) is Some && hex_value(
        text[5],
    ) is Some {
        assert forall|i: int| 0 <= i < 6 implies hex_value(#[trigger] text[i]) is Some by {
            assert(i == 0 || i == 1 || i == 2 || i == 3 || i == 4 || i == 5);
        }
    }
}

/// The written form of a colour has no lower-case letter.
pub proof fn colors_are_written_in_upper_case(color: Rgb, i: int)
    requires
        0 <= i < 6,
    ensures
        color.hex_model().len() == 6,
        !('a' <= color.hex_model()[i] <= 'f'),
{
    assert(i == 0 || i == 1 || i == 2 || i == 3 || i == 4 || i == 5);
}

/// One leading `#` is dropped, and no more than one; a text without one is read
/// as it is.
pub proof fn one_hash_is_dropped(text: Seq<char>)
    ensures
        without_hash(seq!['#'] + text) == text,
        !(text.len() > 0 && text[0] == '#') ==> without_hash(text) == text,
        text.len() > 0 && text[0] == '#' ==> without_hash(text).len() == text.len() - 1,
{
    assert((seq!['#'] + text).skip(1) =~= text);
}

/// No colour is brighter than white in any channel.
pub proof fn white_is_brightest(color: Rgb)
    ensures
        color.r <= Rgb::white_model().r,
        color.g <= Rgb::white_model().g,
        color.b <= Rgb::white_model().b,
{
}

/// A colour that was written is read back, with or without a `#` in front.
pub proof fn a_written_color_is_read_back(
    color: Rgb,
    written: String,
    text: &'static str,
    read: Result<Rgb, InvalidColor>,
    read_light: Result<Rgb, InvalidColor>,
)
    requires
        call_ensures(Rgb::to_hex, (color,), written),
        text@ == written@,
        call_ensures(Rgb::parse, (text,), read),
        call_ensures(parse_lighting_color, (text,), read_light),
    ensures
        read is Ok && read->Ok_0 == color,
        read_light is Ok && read_light->Ok_0 == color,
{
    color.written_form_reads_back(color);
    color_has_no_hash(text@);
    if read is Ok {
        color.written_form_reads_back(read->Ok_0);
    }
    if read_light is Ok {
        color.written_form_reads_back(read_light->Ok_0);
    }
}

/// A `#` in front of a text changes nothing of what is read, unless the text has
/// one of its own.
pub proof fn a_light_may_have_a_hash(
    text: &'static str,
    marked: &'static str,
    plain: Result<Rgb, InvalidColor>,
    read: Result<Rgb, InvalidColor>,
)
    requires
        marked@ == seq!['#'] + text@,
        call_ensures(Rgb::parse, (text,), plain),
        call_ensures(parse_lighting_color, (marked,), read),
    ensures
        read is Ok <==> plain is Ok,
        read is Ok ==> read->Ok_0 == plain->Ok_0,
{
    one_hash_is_dropped(text@);
    if read is Ok && plain is Ok {
        six_digits_spell_one_color(text@, read->Ok_0, plain->Ok_0);
    }
}

} // verus!
