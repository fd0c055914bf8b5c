//! The JSON text of the session claims, written byte for byte the way
//! serde_json writes a struct of two unsigned integers and a string.
use vstd::prelude::*;

verus! {

/// The character of a digit `d < 16`, lower-case for the letters.
pub open spec fn hex_digit(d: nat) -> char {
    if d == 0 { '0' }
    else if d == 1 { '1' }
    else if d == 2 { '2' }
    else if d == 3 { '3' }
    else if d == 4 { '4' }
    else if d == 5 { '5' }
    else if d == 6 { '6' }
    else if d == 7 { '7' }
    else if d == 8 { '8' }
    else if d == 9 { '9' }
    else if d == 10 { 'a' }
    else if d == 11 { 'b' }
    else if d == 12 { 'c' }
    else if d == 13 { 'd' }
    else if d == 14 { 'e' }
    else { 'f' }
}

/// The decimal digits of `n`, most significant first, with no leading zero.
pub open spec fn decimal(n: nat) -> Seq<char>
    decreases n,
{
    if n < 10 {
        seq![hex_digit(n)]
    } else {
        decimal(n / 10).push(hex_digit(n % 10))
    }
}

/// How one character stands inside a JSON string: the quote, the backslash
/// and the control characters are escaped, everything else stands as it is.
pub open spec fn json_char(c: char) -> Seq<char> {
    if c == '"' {
        seq!['\\', '"']
    } else if c == '\\' {
        seq!['\\', '\\']
    } else if c == '\u{8}' {
        seq!['\\', 'b']
    } else if c == '\t' {
        seq!['\\', 't']
    } else if c == '\n' {
        seq!['\\', 'n']
    } else if c == '\u{c}' {
        seq!['\\', 'f']
    } else if c == '\r' {
        seq!['\\', 'r']
    } else if (c as nat) < 32 {
        seq!['\\', 'u', '0', '0', hex_digit((c as nat) / 16), hex_digit((c as nat) % 16)]
    } else {
        seq![c]
    }
}

/// The escaped contents of a JSON string.
pub open spec fn json_escape(s: Seq<char>) -> Seq<char>
    decreases s.len(),
{
    if s.len() == 0 {
        Seq::empty()
    } else {
        json_escape(s.drop_last()) + json_char(s.last())
    }
}

/// A JSON string literal: the escaped contents between double quotes.
pub open spec fn json_string(s: Seq<char>) -> Seq<char> {
    seq!['"'] + json_escape(s) + seq!['"']
}

/// The value of a hexadecimal digit character (either case); 0 for any other.
pub open spec fn hex_value(c: char) -> nat {
    if '0' <= c && c <= '9' {
        (c as nat - '0' as nat) as nat
    } else if 'a' <= c && c <= 'f' {
        (c as nat - 'a' as nat + 10) as nat
    } else if 'A' <= c && c <= 'F' {
        (c as nat - 'A' as nat + 10) as nat
    } else {
        0
    }
}

/// The value of four hexadecimal digit characters.
pub open spec fn hex4_value(a: char, b: char, c: char, d: char) -> nat {
    ((hex_value(a) * 16 + hex_value(b)) * 16 + hex_value(c)) * 16 + hex_value(d)
}

/// The characters that the escaped contents of a JSON string stand for:
/// each escape sequence is read back as the character it names.
pub open spec fn json_unescape(s: Seq<char>) -> Seq<char>
    decreases s.len(),
{
    if s.len() == 0 {
        Seq::empty()
    } else if s[0] == '\\' && s.len() >= 6 && s[1] == 'u' {
        seq![hex4_value(s[2], s[3], s[4], s[5]) as char] + json_unescape(s.skip(6))
    } else if s[0] == '\\' && s.len() >= 2 && (s[1] == '"' || s[1] == '\\' || s[1] == '/') {
        seq![s[1]] + json_unescape(s.skip(2))
    } else if s[0] == '\\' && s.len() >= 2 && s[1] == 'b' {
        seq!['\u{8}'] + json_unescape(s.skip(2))
    } else if s[0] == '\\' && s.len() >= 2 && s[1] == 't' {
        seq!['\t'] + json_unescape(s.skip(2))
    } else if s[0] == '\\' && s.len() >= 2 && s[1] == 'n' {
        seq!['\n'] + json_unescape(s.skip(2))
    } else if s[0] == '\\' && s.len() >= 2 && s[1] == 'f' {
        seq!['\u{c}'] + json_unescape(s.skip(2))
    } else if s[0] == '\\' && s.len() >= 2 && s[1] == 'r' {
        seq!['\r'] + json_unescape(s.skip(2))
    } else {
        seq![s[0]] + json_unescape(s.skip(1))
    }
}

/// Whether `ch` is a digit of lower-case hexadecimal.
pub open spec fn is_lower_hex_char(ch: char) -> bool {
    ('0' <= ch && ch <= '9') || ('a' <= ch && ch <= 'f')
}

/// Whether `\` followed by `e` is the short JSON escape of `c`.
pub open spec fn is_short_escape(e: char, c: char) -> bool {
    ||| e == '"' && c == '"'
    ||| e == '\\' && c == '\\'
    ||| e == 'b' && c == '\u{8}'
    ||| e == 't' && c == '\t'
    ||| e == 'n' && c == '\n'
    ||| e == 'f' && c == '\u{c}'
    ||| e == 'r' && c == '\r'
}

/// How a character is written inside a JSON string is JSON: a character
/// from the space on that is neither the quote nor the backslash stands for
/// itself; the quote and the backslash are escaped by a backslash; a control
/// character is a backslash with either its short escape letter, or `u` and
/// four lower-case hexadecimal digits whose value is the character.
pub proof fn lemma_json_char_is_json(c: char)
    ensures
        (c as nat) >= 32 && c != '"' && c != '\\' ==> json_char(c) == seq![c],
        c == '"' ==> json_char(c) == seq!['\\', '"'],
        c == '\\' ==> json_char(c) == seq!['\\', '\\'],
        (c as nat) < 32 ==> {
            let e = json_char(c);
            &&& e[0] == '\\'
            &&& (e.len() == 2 && is_short_escape(e[1], c)) || (e.len() == 6 && e[1] == 'u'
                && is_lower_hex_char(e[2]) && is_lower_hex_char(e[3]) && is_lower_hex_char(e[4])
                && is_lower_hex_char(e[5]) && hex4_value(e[2], e[3], e[4], e[5]) == c as nat)
        },
{
    if (c as nat) < 32 && c != '\u{8}' && c != '\t' && c != '\n' && c != '\u{c}' && c != '\r' {
        let n = c as nat;
        let e = json_char(c);
        assert(e[4] == hex_digit(n / 16) && e[5] == hex_digit(n % 16));
        assert(n / 16 < 2);
        assert(hex_value(hex_digit(n / 16)) == n / 16);
        assert(hex_value(hex_digit(n % 16)) == n % 16);
        assert((n / 16) * 16 + n % 16 == n) by (nonlinear_arith);
    }
}

/// The number that a run of decimal digit characters stands for.
pub open spec fn decimal_value(s: Seq<char>) -> nat
    decreases s.len(),
{
    if s.len() == 0 {
        0
    } else {
        decimal_value(s.drop_last()) * 10 + (s.last() as nat - '0' as nat) as nat
    }
}

/// The decimal writing of a number is digits only, starts with a zero only
/// for zero itself, and stands for the number.
pub proof fn lemma_decimal_reads_back(n: nat)
    ensures
        decimal(n).len() > 0,
        forall|i: int| 0 <= i < decimal(n).len() ==> '0' <= #[trigger] decimal(n)[i] && decimal(n)[i] <= '9',
        decimal(n)[0] == '0' ==> n == 0,
        decimal_value(decimal(n)) == n,
    decreases n,
{
    if n >= 10 {
        lemma_decimal_reads_back(n / 10);
        let d = decimal(n);
        assert(d == decimal(n / 10).push(hex_digit(n % 10)));
        assert(d.drop_last() =~= decimal(n / 10));
        assert(d[0] == decimal(n / 10)[0]);
        assert(n / 10 > 0);
        assert(d.last() == hex_digit(n % 10));
        assert(hex_digit(n % 10) as nat - '0' as nat == n % 10);
        assert(decimal_value(d) == decimal_value(decimal(n / 10)) * 10 + (n % 10));
        assert((n / 10) * 10 + n % 10 == n) by (nonlinear_arith);
    } else {
        let d = decimal(n);
        assert(d == seq![hex_digit(n)]);
        assert(d.drop_last() =~= Seq::<char>::empty());
        assert(d.last() == hex_digit(n));
        assert(hex_digit(n) as nat - '0' as nat == n);
        assert(decimal_value(d.drop_last()) == 0);
        assert(decimal_value(d) == n);
    }
}

proof fn lemma_escape_append(a: Seq<char>, b: Seq<char>)
    ensures
        json_escape(a + b) == json_escape(a) + json_escape(b),
    decreases b.len(),
{
    if b.len() == 0 {
        assert(a + b =~= a);
        assert(json_escape(b) =~= Seq::<char>::empty());
        assert(json_escape(a) + json_escape(b) =~= json_escape(a));
    } else {
        lemma_escape_append(a, b.drop_last());
        assert((a + b).drop_last() =~= a + b.drop_last());
        assert((a + b).last() == b.last());
        assert(json_escape(a + b) == json_escape(a + b.drop_last()) + json_char(b.last()));
        assert(json_escape(a) + json_escape(b) =~= json_escape(a) + json_escape(b.drop_last())
            + json_char(b.last()));
    }
}

proof fn lemma_unescape_char(c: char, rest: Seq<char>)
    ensures
        json_unescape(json_char(c) + rest) == seq![c] + json_unescape(rest),
{
    let e = json_char(c);
    let s = e + rest;
    if c == '"' || c == '\\' || c == '\u{8}' || c == '\t' || c == '\n' || c == '\u{c}' || c == '\r' {
        assert(s.skip(2) =~= rest);
    } else if (c as nat) < 32 {
        let n = c as nat;
        assert(s.skip(6) =~= rest);
        assert(s[0] == '\\' && s[1] == 'u' && s[2] == '0' && s[3] == '0');
        assert(s[4] == hex_digit(n / 16) && s[5] == hex_digit(n % 16));
        assert(hex_value(hex_digit(n / 16)) == n / 16);
        assert(hex_value(hex_digit(n % 16)) == n % 16);
        assert(hex4_value(s[2], s[3], s[4], s[5]) == (n / 16) * 16 + n % 16);
        assert((n / 16) * 16 + n % 16 == n) by (nonlinear_arith);
        assert((n as char) == c);
    } else {
        assert(s.skip(1) =~= rest);
    }
}

/// Reading back the escaped contents of a JSON string gives the original
/// text: the escaping loses nothing, so the claims text carries the name
/// exactly.
pub proof fn lemma_json_escape_round_trip(s: Seq<char>)
    ensures
        json_unescape(json_escape(s)) == s,
    decreases s.len(),
{
    if s.len() == 0 {
        assert(json_escape(s) =~= Seq::<char>::empty());
    } else {
        let c = s[0];
        let rest = s.skip(1);
        assert(s =~= seq![c] + rest);
        lemma_escape_append(seq![c], rest);
        assert(seq![c].drop_last() =~= Seq::<char>::empty());
        assert(json_escape(Seq::<char>::empty()) =~= Seq::<char>::empty());
        assert(json_escape(seq![c]) == json_escape(seq![c].drop_last()) + json_char(seq![c].last()));
        assert(json_escape(seq![c]) =~= json_char(c));
        lemma_unescape_char(c, json_escape(rest));
        lemma_json_escape_round_trip(rest);
        assert(seq![c] + rest =~= s);
    }
}

#[verifier::external_body]
/// Appends one character; `String::push`.
fn push_char(s: &mut String, c: char)
    ensures
        final(s)@ == old(s)@.push(c),
{
    s.push(c);
}

/// The character of a digit below 16.
fn digit_char(d: u8) -> (c: char)
    requires
        d < 16,
    ensures
        c == hex_digit(d as nat),
{
    match d {
        0 => '0',
        1 => '1',
        2 => '2',
        3 => '3',
        4 => '4',
        5 => '5',
        6 => '6',
        7 => '7',
        8 => '8',
        9 => '9',
        10 => 'a',
        11 => 'b',
        12 => 'c',
        13 => 'd',
        14 => 'e',
        _ => 'f',
    }
}

/// Appends the decimal digits of `n`.
pub fn push_decimal(s: &mut String, n: u64)
    ensures
        final(s)@ == old(s)@ + decimal(n as nat),
    decreases n,
{
    if n >= 10 {
        push_decimal(s, n / 10);
    }
    let d: u8 = (n % 10) as u8;
    push_char(s, digit_char(d));
    proof {
        if n >= 10 {
            assert(decimal(n as nat) == decimal((n / 10) as nat).push(hex_digit((n % 10) as nat)));
        } else {
            assert(decimal(n as nat) == seq![hex_digit(n as nat)]);
        }
    }
}

/// Appends one character as it stands inside a JSON string.
fn push_json_char(s: &mut String, c: char)
    ensures
        final(s)@ == old(s)@ + json_char(c),
{
    let ghost start = s@;
    if c == '"' {
        s.append("\\\"");
    } else if c == '\\' {
        s.append("\\\\");
    } else if c == '\u{8}' {
        s.append("\\b");
    } else if c == '\t' {
        s.append("\\t");
    } else if c == '\n' {
        s.append("\\n");
    } else if c == '\u{c}' {
        s.append("\\f");
    } else if c == '\r' {
        s.append("\\r");
    } else if (c as u32) < 32 {
        let b: u8 = (c as u32) as u8;
        push_char(s, '\\');
        push_char(s, 'u');
        push_char(s, '0');
        push_char(s, '0');
        push_char(s, digit_char(b / 16));
        push_char(s, digit_char(b % 16));
    } else {
        push_char(s, c);
    }
    proof {
        reveal_strlit("\\\"");
        reveal_strlit("\\\\");
        reveal_strlit("\\b");
        reveal_strlit("\\t");
        reveal_strlit("\\n");
        reveal_strlit("\\f");
        reveal_strlit("\\r");
        assert(s@ =~= start + json_char(c));
    }
}

/// Appends `value` as a JSON string literal.
pub fn push_json_string(s: &mut String, value: &str)
    ensures
        final(s)@ == old(s)@ + json_string(value@),
{
    broadcast use vstd::string::group_string_axioms;
    let ghost start = s@;
    push_char(s, '"');
    for c in it: value.chars()
        invariant
            it.seq() == value@,
            s@ == start.push('"') + json_escape(value@.take(it.index() as int)),
    {
        let ghost before = s@;
        push_json_char(s, c);
        proof {
            let i = it.index() as int;
            assert(value@.take(i + 1).drop_last() =~= value@.take(i));
            assert(value@.take(i + 1).last() == c);
            assert(json_escape(value@.take(i + 1)) == json_escape(value@.take(i)) + json_char(c));
            assert(s@ =~= start.push('"') + json_escape(value@.take(i + 1)));
        }
    }
    push_char(s, '"');
    proof {
        assert(value@.take(value@.len() as int) =~= value@);
        assert(s@ =~= start + json_string(value@));
    }
}

} // verus!
