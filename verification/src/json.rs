//! JSON text of the values that the handlers return.
//!
//! What a value is written as is a spec function of its view; the writers
//! append exactly that text to a `String`. Numbers are written as decimal
//! numerals, strings between quotation marks with the escapes that JSON asks
//! for, lists as arrays. There is no white space between the parts.

use vstd::prelude::*;
use vstd::string::StringExecFns;

verus! {

/// Trusted: `String::push` of the standard library. It is taken to do what
/// its documentation says, to append the one character `ch` to the end of the
/// string and to leave the characters before it as they were. Nothing proves
/// this here.
pub assume_specification[ String::push ](s: &mut String, ch: char)
    ensures
        final(s)@ == old(s)@.push(ch),
;

/// The character that stands for the decimal digit `d`.
pub open spec fn digit(d: nat) -> char
    recommends
        d < 10,
{
    seq!['0', '1', '2', '3', '4', '5', '6', '7', '8', '9'][d as int]
}

/// The decimal numeral of `n`, without sign or leading zeros.
pub open spec fn decimal(n: nat) -> Seq<char>
    decreases n,
{
    if n < 10 {
        seq![digit(n)]
    } else {
        decimal(n / 10).push(digit(n % 10))
    }
}

fn digit_char(d: u64) -> (c: char)
    requires
        d < 10,
    ensures
        c == digit(d as nat),
{
    if d == 0 {
        '0'
    } else if d == 1 {
        '1'
    } else if d == 2 {
        '2'
    } else if d == 3 {
        '3'
    } else if d == 4 {
        '4'
    } else if d == 5 {
        '5'
    } else if d == 6 {
        '6'
    } else if d == 7 {
        '7'
    } else if d == 8 {
        '8'
    } else {
        '9'
    }
}

/// Appends the decimal numeral of `n` to `out`.
pub fn write_decimal(n: u64, out: &mut String)
    ensures
        final(out)@ == old(out)@ + decimal(n as nat),
    decreases n,
{
    if n >= 10 {
        write_decimal(n / 10, out);
    }
    out.push(digit_char(n % 10));
}

/// The character that stands for the hexadecimal digit `d`, in lower case.
pub open spec fn hex_digit(d: nat) -> char
    recommends
        d < 16,
{
    seq!['0', '1', '2', '3', '4', '5', '6', '7', '8', '9', 'a', 'b', 'c', 'd', 'e', 'f'][d as int]
}

/// What stands for the character `c` inside a JSON string: a quotation mark, a
/// reverse solidus and the control characters below U+0020 are escaped, every
/// other character stands for itself.
pub open spec fn escaped(c: char) -> Seq<char> {
    if c == '"' {
        seq!['\\', '"']
    } else if c == '\\' {
        seq!['\\', '\\']
    } else if c == '\u{8}' {
        seq!['\\', 'b']
    } else if c == '\t' {
        seq!['\\', 't']
    } else if c == '\n' {
        seq!['\\', 'n']
    } else if c == '\u{c}' {
        seq!['\\', 'f']
    } else if c == '\r' {
        seq!['\\', 'r']
    } else if (c as u32) < 0x20 {
        seq!['\\', 'u', '0', '0', hex_digit((c as u32 / 16) as nat), hex_digit((c as u32 % 16) as nat)]
    } else {
        seq![c]
    }
}

/// The characters of `s`, each as it stands inside a JSON string.
pub open spec fn escaped_all(s: Seq<char>) -> Seq<char>
    decreases s.len(),
{
    if s.len() == 0 {
        Seq::empty()
    } else {
        escaped_all(s.drop_last()) + escaped(s.last())
    }
}

/// The JSON string that holds `s`.
pub open spec fn string_text(s: Seq<char>) -> Seq<char> {
    seq!['"'] + escaped_all(s) + seq!['"']
}

fn hex_char(d: u32) -> (c: char)
    requires
        d < 16,
    ensures
        c == hex_digit(d as nat),
{
    if d < 10 {
        digit_char(d as u64)
    } else if d == 10 {
        'a'
    } else if d == 11 {
        'b'
    } else if d == 12 {
        'c'
    } else if d == 13 {
        'd'
    } else if d == 14 {
        'e'
    } else {
        'f'
    }
}

/// Whether `c` stands for itself inside a JSON string.
pub open spec fn plain(c: char) -> bool {
    c != '"' && c != '\\' && (c as u32) >= 0x20
}

/// A string of characters that all stand for themselves is written as it is.
pub proof fn escaped_all_of_plain(s: Seq<char>)
    requires
        forall|i: int| 0 <= i < s.len() ==> plain(#[trigger] s[i]),
    ensures
        escaped_all(s) == s,
    decreases s.len(),
{
    if s.len() > 0 {
        escaped_all_of_plain(s.drop_last());
        assert(escaped(s.last()) == seq![s.last()]);
        assert(s.drop_last() + seq![s.last()] == s);
    }
}

/// Appends to `out` what stands for `c` inside a JSON string.
pub fn write_escaped(c: char, out: &mut String)
    ensures
        final(out)@ == old(out)@ + escaped(c),
{
    let code: u32 = c as u32;
    if c == '"' || c == '\\' {
        out.push('\\');
        out.push(c);
    } else if code >= 0x20 {
        out.push(c);
    } else {
        out.push('\\');
        if c == '\u{8}' {
            out.push('b');
        } else if c == '\t' {
            out.push('t');
        } else if c == '\n' {
            out.push('n');
        } else if c == '\u{c}' {
            out.push('f');
        } else if c == '\r' {
            out.push('r');
        } else {
            out.push('u');
            out.push('0');
            out.push('0');
            out.push(hex_char(code / 16));
            out.push(hex_char(code % 16));
        }
    }
}

/// Appends the JSON string that holds `s` to `out`.
pub fn write_string(s: &str, out: &mut String)
    ensures
        final(out)@ == old(out)@ + string_text(s@),
{
    out.push('"');
    for c in it: s.chars()
        invariant
            it.seq() == s@,
            out@ == old(out)@ + seq!['"'] + escaped_all(s@.take(it.index() as int)),
    {
        assert(s@.take(it.index() + 1).drop_last() == s@.take(it.index() as int));
        write_escaped(c, out);
    }
    assert(s@.take(s@.len() as int) == s@);
    out.push('"');
}

/// The texts `items`, in order, with a comma between neighbours.
pub open spec fn joined(items: Seq<Seq<char>>) -> Seq<char>
    decreases items.len(),
{
    if items.len() == 0 {
        Seq::empty()
    } else if items.len() == 1 {
        items[0]
    } else {
        joined(items.drop_last()) + seq![','] + items.last()
    }
}

/// The JSON array whose elements have the texts `items`.
pub open spec fn array_text(items: Seq<Seq<char>>) -> Seq<char> {
    seq!['['] + joined(items) + seq![']']
}

/// A value with a JSON text. The text depends on the view of the value alone,
/// so two values that stand for the same thing are written alike.
pub trait ToJson: View {
    /// The JSON text of a value whose view is `v`.
    spec fn json_of(v: Self::V) -> Seq<char>;

    /// Appends the JSON text of this value to `out`.
    fn write_json(&self, out: &mut String)
        ensures
            final(out)@ == old(out)@ + Self::json_of(self@),
    ;
}

/// Appends to `out` the JSON array of `items`.
pub fn write_array<T: ToJson>(items: &Vec<T>, out: &mut String)
    ensures
        final(out)@ == old(out)@ + array_text(items@.map_values(|item: T| T::json_of(item@))),
{
    let ghost texts = items@.map_values(|item: T| T::json_of(item@));
    out.push('[');
    for i in 0..items.len()
        invariant
            texts == items@.map_values(|item: T| T::json_of(item@)),
            out@ == old(out)@ + seq!['['] + joined(texts.take(i as int)),
    {
        assert(texts.take(i + 1).drop_last() == texts.take(i as int));
        if i > 0 {
            out.push(',');
        }
        items[i].write_json(out);
    }
    assert(texts.take(items.len() as int) == texts);
    out.push(']');
}

/// The JSON text of `value`.
pub fn render<T: ToJson>(value: &T) -> (text: String)
    ensures
        text@ == T::json_of(value@),
{
    let mut text = String::new();
    value.write_json(&mut text);
    text
}

} // verus!
