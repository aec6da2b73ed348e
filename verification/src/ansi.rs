//! ANSI escape sequences for the terminal, as text to be written out.

use vstd::prelude::*;

verus! {

/// The escape character that opens every control sequence.
pub const ESC: char = '\x1b';

/// The character of a decimal digit `d`, for `0 <= d <= 9`: the digits are
/// consecutive from `'0'`, which is code point 48.
pub open spec fn digit_char(d: nat) -> char {
    (48 + d) as char
}

/// The decimal numeral of `n`: no sign, no leading zeros, `"0"` for zero.
pub open spec fn decimal(n: nat) -> Seq<char>
    decreases n,
{
    if n < 10 {
        seq![digit_char(n)]
    } else {
        decimal(n / 10).push(digit_char(n % 10))
    }
}

/// The control sequence introducer, `ESC [`.
pub open spec fn csi() -> Seq<char> {
    seq![ESC, '[']
}

/// Cursor to row 1, column 1, then clear from the cursor to the end of the
/// screen: `ESC[1;1H` `ESC[0J`.
pub open spec fn clear_screen_text() -> Seq<char> {
    csi() + seq!['1', ';', '1', 'H'] + csi() + seq!['0', 'J']
}

/// Reset all display attributes: `ESC[0m`.
pub open spec fn clear_attributes_text() -> Seq<char> {
    csi() + seq!['0', 'm']
}

/// Bold with foreground colour `color`: `ESC[1;<color>m`, the colour in
/// decimal.
pub open spec fn fg_color_text(color: nat) -> Seq<char> {
    csi() + seq!['1', ';'] + decimal(color) + seq!['m']
}

/// The character of the decimal digit `d`.
fn digit(d: usize) -> (c: char)
    requires
        d < 10,
    ensures
        c == digit_char(d as nat),
{
    let code: u8 = 48u8 + (d as u8);
    code as char
}

/// Appends the decimal numeral of `n` to `out`.
pub fn push_decimal(out: &mut String, n: usize)
    ensures
        final(out)@ == old(out)@ + decimal(n as nat),
    decreases n,
{
    if n >= 10 {
        push_decimal(out, n / 10);
    }
    out.push(digit(n % 10));
}

/// Appends `ESC [` to `out`.
fn push_csi(out: &mut String)
    ensures
        final(out)@ == old(out)@ + csi(),
{
    out.push(ESC);
    out.push('[');
}

/// Appends the sequence that selects foreground colour `color` to `out`.
pub fn push_fg_color(out: &mut String, color: usize)
    ensures
        final(out)@ == old(out)@ + fg_color_text(color as nat),
{
    push_csi(out);
    out.push('1');
    out.push(';');
    push_decimal(out, color);
    out.push('m');
}

/// Appends the sequence that resets the display attributes to `out`.
pub fn push_clear_attributes(out: &mut String)
    ensures
        final(out)@ == old(out)@ + clear_attributes_text(),
{
    push_csi(out);
    out.push('0');
    out.push('m');
}

/// The text that homes the cursor and clears the screen.
pub fn clear_screen() -> (text: String)
    ensures
        text@ == clear_screen_text(),
{
    let mut text = String::new();
    push_csi(&mut text);
    text.push('1');
    text.push(';');
    text.push('1');
    text.push('H');
    push_csi(&mut text);
    text.push('0');
    text.push('J');
    text
}

/// The text that resets the display attributes.
pub fn clear_attributes() -> (text: String)
    ensures
        text@ == clear_attributes_text(),
{
    let mut text = String::new();
    push_clear_attributes(&mut text);
    text
}

/// The text that selects foreground colour `color`.
pub fn set_fg_color(color: usize) -> (text: String)
    ensures
        text@ == fg_color_text(color as nat),
{
    let mut text = String::new();
    push_fg_color(&mut text, color);
    text
}

} // verus!
