//! Colours with an alpha channel, and their notation on a command line.

use vstd::prelude::*;

verus! {

/// A colour of four channels, eight bits each.
#[derive(Debug, Clone, Copy, PartialEq, Eq, Hash, Structural)]
pub struct Color {
    pub alpha: u8,
    pub red: u8,
    pub green: u8,
    pub blue: u8,
}

/// The lower case character that stands for the hexadecimal digit `d`.
pub open spec fn hex_digit_char(d: nat) -> char {
    if d == 0 {
        '0'
    } else if d == 1 {
        '1'
    } else if d == 2 {
        '2'
    } else if d == 3 {
        '3'
    } else if d == 4 {
        '4'
    } else if d == 5 {
        '5'
    } else if d == 6 {
        '6'
    } else if d == 7 {
        '7'
    } else if d == 8 {
        '8'
    } else if d == 9 {
        '9'
    } else if d == 10 {
        'a'
    } else if d == 11 {
        'b'
    } else if d == 12 {
        'c'
    } else if d == 13 {
        'd'
    } else if d == 14 {
        'e'
    } else {
        'f'
    }
}

/// The two hexadecimal digits of a channel, the high one first.
pub open spec fn hex_byte(b: u8) -> Seq<char> {
    seq![hex_digit_char((b / 16) as nat), hex_digit_char((b % 16) as nat)]
}

/// The notation of a colour: `#`, then red, green, blue and alpha in two
/// hexadecimal digits each.
pub open spec fn hex_notation(c: Color) -> Seq<char> {
    seq!['#'] + hex_byte(c.red) + hex_byte(c.green) + hex_byte(c.blue) + hex_byte(c.alpha)
}

fn hex_digit_str(d: u8) -> (s: &'static str)
    requires
        d < 16,
    ensures
        s@ == seq![hex_digit_char(d as nat)],
{
    proof {
        reveal_strlit("0");
        reveal_strlit("1");
        reveal_strlit("2");
        reveal_strlit("3");
        reveal_strlit("4");
        reveal_strlit("5");
        reveal_strlit("6");
        reveal_strlit("7");
        reveal_strlit("8");
        reveal_strlit("9");
        reveal_strlit("a");
        reveal_strlit("b");
        reveal_strlit("c");
        reveal_strlit("d");
        reveal_strlit("e");
        reveal_strlit("f");
    }
    let s: &'static str = if d == 0 {
        "0"
    } else if d == 1 {
        "1"
    } else if d == 2 {
        "2"
    } else if d == 3 {
        "3"
    } else if d == 4 {
        "4"
    } else if d == 5 {
        "5"
    } else if d == 6 {
        "6"
    } else if d == 7 {
        "7"
    } else if d == 8 {
        "8"
    } else if d == 9 {
        "9"
    } else if d == 10 {
        "a"
    } else if d == 11 {
        "b"
    } else if d == 12 {
        "c"
    } else if d == 13 {
        "d"
    } else if d == 14 {
        "e"
    } else {
        "f"
    };
    assert(s@ =~= seq![hex_digit_char(d as nat)]);
    s
}

fn push_hex_byte(s: &mut String, b: u8)
    ensures
        final(s)@ == old(s)@ + hex_byte(b),
{
    s.append(hex_digit_str(b / 16));
    s.append(hex_digit_str(b % 16));
    assert(s@ =~= old(s)@ + hex_byte(b));
}

impl Color {
    /// An opaque colour.
    pub fn rgb(red: u8, green: u8, blue: u8) -> (c: Self)
        ensures
            c == (Color { alpha: 255, red, green, blue }),
    {
        Self { red, green, blue, alpha: 255 }
    }

    /// A colour of the four given channels.
    pub fn rgba(red: u8, green: u8, blue: u8, alpha: u8) -> (c: Self)
        ensures
            c == (Color { alpha, red, green, blue }),
    {
        Self { red, green, blue, alpha }
    }

    /// The colour as the conversion tool reads it: `#rrggbbaa`.
    pub fn as_hex_string(&self) -> (s: String)
        ensures
            s@ == hex_notation(*self),
            s@.len() == 9,
    {
        proof {
            reveal_strlit("#");
        }
        let mut s: String = String::from_str("#");
        assert(s@ =~= seq!['#']);
        push_hex_byte(&mut s, self.red);
        push_hex_byte(&mut s, self.green);
        push_hex_byte(&mut s, self.blue);
        push_hex_byte(&mut s, self.alpha);
        s
    }
}

} // verus!
