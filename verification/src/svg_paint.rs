//! The parts of the paint of a vector path that are plain text: the names of
//! line caps and joins, and literal colors written as Compose `Color` values.
use vstd::prelude::*;
use crate::text::{digit_char, push_char};

verus! {

/// How the ends of a stroke are drawn.
#[derive(Debug, Clone, Copy, PartialEq, Eq, Structural)]
pub enum SvgLineCap {
    Butt,
    Round,
    Square,
}

/// How the corners of a stroke are drawn.
#[derive(Debug, Clone, Copy, PartialEq, Eq, Structural)]
pub enum SvgLineJoin {
    Miter,
    Round,
    Bevel,
}

/// The name of a line cap.
pub open spec fn line_cap_text(value: SvgLineCap) -> Seq<char> {
    match value {
        SvgLineCap::Butt => "butt"@,
        SvgLineCap::Round => "round"@,
        SvgLineCap::Square => "square"@,
    }
}

/// The name of a line join.
pub open spec fn line_join_text(value: SvgLineJoin) -> Seq<char> {
    match value {
        SvgLineJoin::Miter => "miter"@,
        SvgLineJoin::Round => "round"@,
        SvgLineJoin::Bevel => "bevel"@,
    }
}

/// The name of a line cap.
pub fn line_cap_name(value: SvgLineCap) -> (res: &'static str)
    ensures
        res@ == line_cap_text(value),
{
    match value {
        SvgLineCap::Butt => "butt",
        SvgLineCap::Round => "round",
        SvgLineCap::Square => "square",
    }
}

/// The name of a line join.
pub fn line_join_name(value: SvgLineJoin) -> (res: &'static str)
    ensures
        res@ == line_join_text(value),
{
    match value {
        SvgLineJoin::Miter => "miter",
        SvgLineJoin::Round => "round",
        SvgLineJoin::Bevel => "bevel",
    }
}

/// The upper-case hexadecimal digit of `d` (`d < 16`).
pub open spec fn hex_digit_char(d: nat) -> char {
    if d < 10 {
        digit_char(d)
    } else if d == 10 {
        'A'
    } else if d == 11 {
        'B'
    } else if d == 12 {
        'C'
    } else if d == 13 {
        'D'
    } else if d == 14 {
        'E'
    } else {
        'F'
    }
}

/// A byte as two upper-case hexadecimal digits.
pub open spec fn hex_byte_text(value: u8) -> Seq<char> {
    seq![hex_digit_char((value / 16) as nat), hex_digit_char((value % 16) as nat)]
}

/// An opaque literal color as a Compose `Color` value: `0xFF` then its red,
/// green and blue bytes in hexadecimal.
pub open spec fn literal_color_text(red: u8, green: u8, blue: u8) -> Seq<char> {
    "Color(0xFF"@ + hex_byte_text(red) + hex_byte_text(green) + hex_byte_text(blue) + ")"@
}

fn hex_digit(d: u8) -> (c: char)
    requires
        d < 16,
    ensures
        c == hex_digit_char(d as nat),
{
    if d == 0 {
        '0'
    } else if d == 1 {
        '1'
    } else if d == 2 {
        '2'
    } else if d == 3 {
        '3'
    } else if d == 4 {
        '4'
    } else if d == 5 {
        '5'
    } else if d == 6 {
        '6'
    } else if d == 7 {
        '7'
    } else if d == 8 {
        '8'
    } else if d == 9 {
        '9'
    } else if d == 10 {
        'A'
    } else if d == 11 {
        'B'
    } else if d == 12 {
        'C'
    } else if d == 13 {
        'D'
    } else if d == 14 {
        'E'
    } else {
        'F'
    }
}

fn push_hex_byte(out: &mut String, value: u8)
    ensures
        final(out)@ == old(out)@ + hex_byte_text(value),
{
    let ghost start = out@;
    push_char(out, hex_digit(value / 16));
    push_char(out, hex_digit(value % 16));
    assert(out@ =~= start + hex_byte_text(value));
}

/// An opaque literal color as a Compose `Color` value.
pub fn compose_literal_color(red: u8, green: u8, blue: u8) -> (res: String)
    ensures
        res@ == literal_color_text(red, green, blue),
{
    let mut out = String::from_str("Color(0xFF");
    push_hex_byte(&mut out, red);
    push_hex_byte(&mut out, green);
    push_hex_byte(&mut out, blue);
    out.append(")");
    out
}

} // verus!
