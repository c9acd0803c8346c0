//! Text building blocks of the Lua and JSON the decompiler writes: string
//! escaping, decimal and hexadecimal numerals, operator symbols and the
//! fixed module header.

use vstd::prelude::*;
use crate::text::{chars_of, string_from_chars};

verus! {

// ---------------------------------------------------------------- numerals

/// The decimal numeral of `n`, without leading zeros ("0" for zero).
pub open spec fn decimal(n: nat) -> Seq<char>
    decreases n,
{
    if n < 10 {
        seq![digit_char(n)]
    } else {
        decimal(n / 10).push(digit_char(n % 10))
    }
}

/// The digit character of `d < 16`, upper case for 10 to 15.
pub open spec fn digit_char(d: nat) -> char {
    if d < 10 {
        (('0' as nat) + d) as char
    } else {
        (('A' as nat) + d - 10) as char
    }
}

/// The `width` lowest hexadecimal digits of `n`, upper case, most
/// significant first.
pub open spec fn hex_digits(n: nat, width: nat) -> Seq<char>
    decreases width,
{
    if width == 0 {
        Seq::empty()
    } else {
        hex_digits(n / 16, (width - 1) as nat).push(digit_char(n % 16))
    }
}

/// The hexadecimal numeral of `n` with at least `width` digits, zero padded.
pub open spec fn hex_padded(n: nat, width: nat) -> Seq<char>
    decreases n + width,
{
    if n < 16 && width <= 1 {
        seq![digit_char(n)]
    } else {
        hex_padded(n / 16, if width == 0 {
            0
        } else {
            (width - 1) as nat
        }).push(digit_char(n % 16))
    }
}

fn digit(d: u64) -> (c: char)
    requires
        d < 16,
    ensures
        c == digit_char(d as nat),
{
    if d < 10 {
        (48 + d) as u8 as char
    } else {
        (55 + d) as u8 as char
    }
}

/// Appends the decimal numeral of `n`.
pub fn push_decimal(out: &mut Vec<char>, n: u64)
    ensures
        final(out)@ == old(out)@ + decimal(n as nat),
    decreases n,
{
    if n < 10 {
        out.push(digit(n));
    } else {
        push_decimal(out, n / 10);
        out.push(digit(n % 10));
    }
}

/// Appends `n` in upper-case hexadecimal, zero padded to `width` digits.
pub fn push_hex(out: &mut Vec<char>, n: u64, width: u64)
    ensures
        final(out)@ == old(out)@ + hex_padded(n as nat, width as nat),
    decreases n + width,
{
    if n < 16 && width <= 1 {
        out.push(digit(n));
    } else {
        let w = if width == 0 {
            0
        } else {
            width - 1
        };
        push_hex(out, n / 16, w);
        out.push(digit(n % 16));
    }
}

/// Appends the characters of `s`.
pub fn push_str(out: &mut Vec<char>, s: &str)
    ensures
        final(out)@ == old(out)@ + s@,
{
    let cs = chars_of(s);
    let mut i: usize = 0;
    let ghost start = out@;
    while i < cs.len()
        invariant
            i <= cs@.len(),
            cs@ == s@,
            out@ == start + cs@.take(i as int),
        decreases cs@.len() - i,
    {
        out.push(cs[i]);
        i += 1;
        assert(out@ =~= start + cs@.take(i as int));
    }
    assert(cs@.take(i as int) =~= cs@);
}

/// Appends the characters of `s`.
pub fn push_chars(out: &mut Vec<char>, s: &Vec<char>)
    ensures
        final(out)@ == old(out)@ + s@,
{
    let mut i: usize = 0;
    let ghost start = out@;
    while i < s.len()
        invariant
            i <= s@.len(),
            out@ == start + s@.take(i as int),
        decreases s@.len() - i,
    {
        out.push(s[i]);
        i += 1;
        assert(out@ =~= start + s@.take(i as int));
    }
    assert(s@.take(i as int) =~= s@);
}

// ---------------------------------------------------------------- escaping

/// How one character appears inside a double-quoted Lua string: quote,
/// backslash, newline and tab take their backslash escapes, other control
/// characters below U+0020 their decimal escape, everything else itself.
pub open spec fn lua_escape_char(c: char) -> Seq<char> {
    if c == '"' {
        seq!['\\', '"']
    } else if c == '\\' {
        seq!['\\', '\\']
    } else if c == '\n' {
        seq!['\\', 'n']
    } else if c == '\t' {
        seq!['\\', 't']
    } else if (c as u32) < 0x20 {
        seq!['\\'] + decimal((c as u32) as nat)
    } else {
        seq![c]
    }
}

/// The escaped text of `s`, character by character.
pub open spec fn lua_escaped(s: Seq<char>) -> Seq<char>
    decreases s.len(),
{
    if s.len() == 0 {
        Seq::empty()
    } else {
        lua_escaped(s.drop_last()) + lua_escape_char(s.last())
    }
}

/// Escapes `s` for a double-quoted Lua string literal.
pub fn lua_escape(s: &str) -> (r: String)
    ensures
        r@ == lua_escaped(s@),
{
    let cs = chars_of(s);
    let mut out: Vec<char> = Vec::new();
    let mut i: usize = 0;
    while i < cs.len()
        invariant
            i <= cs@.len(),
            cs@ == s@,
            out@ == lua_escaped(cs@.take(i as int)),
        decreases cs@.len() - i,
    {
        let c = cs[i];
        let ghost before = out@;
        if c == '"' {
            out.push('\\');
            out.push('"');
        } else if c == '\\' {
            out.push('\\');
            out.push('\\');
        } else if c == '\n' {
            out.push('\\');
            out.push('n');
        } else if c == '\t' {
            out.push('\\');
            out.push('t');
        } else if (c as u32) < 0x20 {
            out.push('\\');
            let code = c as u32;
            push_decimal(&mut out, code as u64);
        } else {
            out.push(c);
        }
        assert(out@ =~= before + lua_escape_char(c));
        assert(cs@.take(i as int + 1).drop_last() =~= cs@.take(i as int));
        i += 1;
    }
    assert(cs@.take(i as int) =~= cs@);
    string_from_chars(out.as_slice())
}

/// How one character appears inside a JSON string: backslash, quote,
/// newline, carriage return and tab take their backslash escapes, other
/// control characters `\u` and four upper-case hexadecimal digits.
pub open spec fn json_escape_char(c: char) -> Seq<char> {
    if c == '\\' {
        seq!['\\', '\\']
    } else if c == '"' {
        seq!['\\', '"']
    } else if c == '\n' {
        seq!['\\', 'n']
    } else if c == '\r' {
        seq!['\\', 'r']
    } else if c == '\t' {
        seq!['\\', 't']
    } else if is_control(c) {
        seq!['\\', 'u'] + hex_padded((c as u32) as nat, 4)
    } else {
        seq![c]
    }
}

/// `char::is_control`: the C0 controls, DEL and the C1 controls.
pub open spec fn is_control(c: char) -> bool {
    (c as u32) < 0x20 || (0x7F <= (c as u32) && (c as u32) < 0xA0)
}

/// The JSON-escaped text of `s`.
pub open spec fn json_escaped(s: Seq<char>) -> Seq<char>
    decreases s.len(),
{
    if s.len() == 0 {
        Seq::empty()
    } else {
        json_escaped(s.drop_last()) + json_escape_char(s.last())
    }
}

/// Appends `s` escaped for a JSON string.
pub fn push_json_escaped(out: &mut Vec<char>, s: &str)
    ensures
        final(out)@ == old(out)@ + json_escaped(s@),
{
    let cs = chars_of(s);
    let ghost start = out@;
    let mut i: usize = 0;
    while i < cs.len()
        invariant
            i <= cs@.len(),
            cs@ == s@,
            out@ == start + json_escaped(cs@.take(i as int)),
        decreases cs@.len() - i,
    {
        let c = cs[i];
        let ghost before = out@;
        if c == '\\' {
            out.push('\\');
            out.push('\\');
        } else if c == '"' {
            out.push('\\');
            out.push('"');
        } else if c == '\n' {
            out.push('\\');
            out.push('n');
        } else if c == '\r' {
            out.push('\\');
            out.push('r');
        } else if c == '\t' {
            out.push('\\');
            out.push('t');
        } else if (c as u32) < 0x20 || (0x7F <= (c as u32) && (c as u32) < 0xA0) {
            out.push('\\');
            out.push('u');
            let code = c as u32;
            push_hex(out, code as u64, 4);
        } else {
            out.push(c);
        }
        assert(out@ =~= before + json_escape_char(c));
        assert(cs@.take(i as int + 1).drop_last() =~= cs@.take(i as int));
        assert(start + json_escaped(cs@.take(i as int + 1)) =~= before + json_escape_char(c));
        i += 1;
    }
    assert(cs@.take(i as int) =~= cs@);
}

/// Escapes `s` for a JSON string literal.
pub fn json_escape(s: &str) -> (r: String)
    ensures
        r@ == json_escaped(s@),
{
    let mut out: Vec<char> = Vec::new();
    push_json_escaped(&mut out, s);
    assert(out@ =~= json_escaped(s@));
    string_from_chars(out.as_slice())
}


/// Text without quotes, backslashes or control characters is its own Lua
/// escape.
pub proof fn lemma_plain_text_unescaped(s: Seq<char>)
    requires
        forall|i: int| 0 <= i < s.len() ==> #[trigger] s[i] != '"' && s[i] != '\\' && (s[i] as u32) >= 0x20,
    ensures
        lua_escaped(s) == s,
    decreases s.len(),
{
    if s.len() > 0 {
        let t = s.drop_last();
        assert forall|i: int| 0 <= i < t.len() implies #[trigger] t[i] != '"' && t[i] != '\\' && (t[i] as u32) >= 0x20 by {
            assert(t[i] == s[i]);
        }
        lemma_plain_text_unescaped(t);
        assert(s.last() == s[s.len() - 1]);
        assert(s.last() != '\n') by {
            assert((s.last() as u32) >= 0x20);
        }
        assert(lua_escaped(s) =~= s);
    }
}

} // verus!
