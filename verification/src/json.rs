//! Serialization of stored users into their JSON wire form.
//!
//! The wire form of a user is `{"id":<digits>,"name":"<escaped>"}`.
//! `spec_user_json` is the mathematical statement of that form; the
//! executable encoders are proved to produce exactly it.

use vstd::prelude::*;
use vstd::string::*;

verus! {

/// Relies on `String::push`: std documents that it appends the given
/// character to the end of the string.
pub assume_specification[ String::push ](s: &mut String, c: char)
    ensures
        final(s)@ == old(s)@ + seq![c],
;

// ---------------------------------------------------------------------------
// Decimal rendering of identifiers
// ---------------------------------------------------------------------------

/// The character for a single decimal digit.
pub open spec fn spec_digit_char(d: nat) -> char {
    if d == 0 {
        '0'
    } else if d == 1 {
        '1'
    } else if d == 2 {
        '2'
    } else if d == 3 {
        '3'
    } else if d == 4 {
        '4'
    } else if d == 5 {
        '5'
    } else if d == 6 {
        '6'
    } else if d == 7 {
        '7'
    } else if d == 8 {
        '8'
    } else {
        '9'
    }
}

/// The usual decimal rendering of a natural number: no sign, no
/// leading zeros (except for zero itself, rendered as "0").
pub open spec fn spec_decimal(n: nat) -> Seq<char>
    decreases n,
{
    if n < 10 {
        seq![spec_digit_char(n)]
    } else {
        spec_decimal(n / 10) + seq![spec_digit_char(n % 10)]
    }
}

fn digit_str(d: u32) -> (r: &'static str)
    requires
        d < 10,
    ensures
        r@ == seq![spec_digit_char(d as nat)],
{
    proof {
        reveal_strlit("0");
        reveal_strlit("1");
        reveal_strlit("2");
        reveal_strlit("3");
        reveal_strlit("4");
        reveal_strlit("5");
        reveal_strlit("6");
        reveal_strlit("7");
        reveal_strlit("8");
        reveal_strlit("9");
    }
    let r: &'static str = if d == 0 {
        "0"
    } else if d == 1 {
        "1"
    } else if d == 2 {
        "2"
    } else if d == 3 {
        "3"
    } else if d == 4 {
        "4"
    } else if d == 5 {
        "5"
    } else if d == 6 {
        "6"
    } else if d == 7 {
        "7"
    } else if d == 8 {
        "8"
    } else {
        "9"
    };
    proof {
        assert(r@ =~= seq![spec_digit_char(d as nat)]);
    }
    r
}

// ---------------------------------------------------------------------------
// JSON string escaping
// ---------------------------------------------------------------------------

/// The character for a single hexadecimal digit, lower case.
pub open spec fn spec_hex_char(d: nat) -> char {
    if d == 0 {
        '0'
    } else if d == 1 {
        '1'
    } else if d == 2 {
        '2'
    } else if d == 3 {
        '3'
    } else if d == 4 {
        '4'
    } else if d == 5 {
        '5'
    } else if d == 6 {
        '6'
    } else if d == 7 {
        '7'
    } else if d == 8 {
        '8'
    } else if d == 9 {
        '9'
    } else if d == 10 {
        'a'
    } else if d == 11 {
        'b'
    } else if d == 12 {
        'c'
    } else if d == 13 {
        'd'
    } else if d == 14 {
        'e'
    } else {
        'f'
    }
}

/// A character that JSON lets stand unescaped inside a string literal:
/// anything but the quote, the backslash and the control characters.
pub open spec fn spec_is_plain(c: char) -> bool {
    c != '"' && c != '\\' && c != '\u{8}' && c != '\t' && c != '\n' && c != '\u{c}' && c != '\r'
        && (c as u32) >= 32
}

/// How one character appears inside a JSON string literal: the quote,
/// the backslash and the common control characters get their two-letter
/// escapes, the remaining control characters a `\u00xx` escape, and
/// every other character stands as itself.
pub open spec fn spec_escape_char(c: char) -> Seq<char> {
    if c == '"' {
        seq!['\\', '"']
    } else if c == '\\' {
        seq!['\\', '\\']
    } else if c == '\u{8}' {
        seq!['\\', 'b']
    } else if c == '\t' {
        seq!['\\', 't']
    } else if c == '\n' {
        seq!['\\', 'n']
    } else if c == '\u{c}' {
        seq!['\\', 'f']
    } else if c == '\r' {
        seq!['\\', 'r']
    } else if (c as u32) < 32 {
        seq![
            '\\',
            'u',
            '0',
            '0',
            spec_hex_char(((c as u32) / 16) as nat),
            spec_hex_char(((c as u32) % 16) as nat),
        ]
    } else {
        seq![c]
    }
}

/// The body of a JSON string literal holding exactly the given text.
pub open spec fn spec_escape(s: Seq<char>) -> Seq<char>
    decreases s.len(),
{
    if s.len() == 0 {
        Seq::empty()
    } else {
        spec_escape_char(s[0]) + spec_escape(s.skip(1))
    }
}

/// Escaping a text extended by one character appends that character's
/// escape to the escaped text.
proof fn lemma_escape_push(s: Seq<char>, c: char)
    ensures
        spec_escape(s.push(c)) == spec_escape(s) + spec_escape_char(c),
    decreases s.len(),
{
    if s.len() == 0 {
        assert(s.push(c)[0] == c);
        assert(s.push(c).skip(1) =~= Seq::<char>::empty());
        assert(spec_escape(s) + spec_escape_char(c) =~= spec_escape_char(c));
        assert(spec_escape_char(c) + spec_escape(Seq::<char>::empty()) =~= spec_escape_char(c));
    } else {
        lemma_escape_push(s.skip(1), c);
        assert(s.push(c)[0] == s[0]);
        assert(s.push(c).skip(1) =~= s.skip(1).push(c));
        assert(spec_escape_char(s[0]) + (spec_escape(s.skip(1)) + spec_escape_char(c)) =~= (
        spec_escape_char(s[0]) + spec_escape(s.skip(1))) + spec_escape_char(c));
    }
}

fn hex_char_str(d: u32) -> (r: &'static str)
    requires
        d < 16,
    ensures
        r@ == seq![spec_hex_char(d as nat)],
{
    proof {
        reveal_strlit("0");
        reveal_strlit("1");
        reveal_strlit("2");
        reveal_strlit("3");
        reveal_strlit("4");
        reveal_strlit("5");
        reveal_strlit("6");
        reveal_strlit("7");
        reveal_strlit("8");
        reveal_strlit("9");
        reveal_strlit("a");
        reveal_strlit("b");
        reveal_strlit("c");
        reveal_strlit("d");
        reveal_strlit("e");
        reveal_strlit("f");
    }
    let r: &'static str = if d == 0 {
        "0"
    } else if d == 1 {
        "1"
    } else if d == 2 {
        "2"
    } else if d == 3 {
        "3"
    } else if d == 4 {
        "4"
    } else if d == 5 {
        "5"
    } else if d == 6 {
        "6"
    } else if d == 7 {
        "7"
    } else if d == 8 {
        "8"
    } else if d == 9 {
        "9"
    } else if d == 10 {
        "a"
    } else if d == 11 {
        "b"
    } else if d == 12 {
        "c"
    } else if d == 13 {
        "d"
    } else if d == 14 {
        "e"
    } else {
        "f"
    };
    proof {
        assert(r@ =~= seq![spec_hex_char(d as nat)]);
    }
    r
}

/// Appends the escape of one character to the output.
fn escape_char_into(out: &mut String, c: char)
    ensures
        final(out)@ == old(out)@ + spec_escape_char(c),
{
    if c == '"' {
        out.append("\\\"");
        proof {
            reveal_strlit("\\\"");
            assert(("\\\"")@ =~= seq!['\\', '"']);
        }
    } else if c == '\\' {
        out.append("\\\\");
        proof {
            reveal_strlit("\\\\");
            assert(("\\\\")@ =~= seq!['\\', '\\']);
        }
    } else if c == '\u{8}' {
        out.append("\\b");
        proof {
            reveal_strlit("\\b");
            assert(("\\b")@ =~= seq!['\\', 'b']);
        }
    } else if c == '\t' {
        out.append("\\t");
        proof {
            reveal_strlit("\\t");
            assert(("\\t")@ =~= seq!['\\', 't']);
        }
    } else if c == '\n' {
        out.append("\\n");
        proof {
            reveal_strlit("\\n");
            assert(("\\n")@ =~= seq!['\\', 'n']);
        }
    } else if c == '\u{c}' {
        out.append("\\f");
        proof {
            reveal_strlit("\\f");
            assert(("\\f")@ =~= seq!['\\', 'f']);
        }
    } else if c == '\r' {
        out.append("\\r");
        proof {
            reveal_strlit("\\r");
            assert(("\\r")@ =~= seq!['\\', 'r']);
        }
    } else if (c as u32) < 32 {
        let v: u32 = c as u32;
        out.append("\\u00");
        out.append(hex_char_str(v / 16));
        out.append(hex_char_str(v % 16));
        proof {
            reveal_strlit("\\u00");
            assert(("\\u00")@ =~= seq!['\\', 'u', '0', '0']);
            assert(out@ =~= old(out)@ + spec_escape_char(c));
        }
    } else {
        out.push(c);
        proof {
            assert(out@ =~= old(out)@ + spec_escape_char(c));
        }
    }
}

/// Escapes a text for inclusion in a JSON string literal.
pub fn escape_json(s: &str) -> (r: String)
    ensures
        r@ == spec_escape(s@),
{
    let len = s.unicode_len();
    let mut out = String::new();
    proof {
        assert(s@.take(0) =~= Seq::<char>::empty());
    }
    let mut i: usize = 0;
    while i < len
        invariant
            len == s@.len(),
            i <= len,
            out@ == spec_escape(s@.take(i as int)),
        decreases len - i,
    {
        let c = s.get_char(i);
        escape_char_into(&mut out, c);
        proof {
            lemma_escape_push(s@.take(i as int), c);
            assert(s@.take(i as int).push(c) =~= s@.take(i as int + 1));
        }
        i = i + 1;
    }
    proof {
        assert(s@.take(len as int) =~= s@);
    }
    out
}

/// Renders an identifier in decimal.
pub fn encode_u32(n: u32) -> (r: String)
    ensures
        r@ == spec_decimal(n as nat),
    decreases n,
{
    if n < 10 {
        String::from_str(digit_str(n))
    } else {
        proof {
            assert(n / 10 < n);
        }
        let mut s = encode_u32(n / 10);
        s.append(digit_str(n % 10));
        s
    }
}

// ---------------------------------------------------------------------------
// Escaping loses nothing
// ---------------------------------------------------------------------------

proof fn lemma_escape_char_nonempty(c: char)
    ensures
        spec_escape_char(c).len() >= 1,
{
}

proof fn lemma_hex_char_injective(x: nat, y: nat)
    requires
        x < 16,
        y < 16,
        spec_hex_char(x) == spec_hex_char(y),
    ensures
        x == y,
{
}

/// A character's escape determines the character, even at the head of
/// a longer text: the escapes form a prefix code.
proof fn lemma_escape_char_prefix(a: char, b: char, t1: Seq<char>, t2: Seq<char>)
    requires
        spec_escape_char(a) + t1 == spec_escape_char(b) + t2,
    ensures
        a == b,
        t1 == t2,
{
    let ea = spec_escape_char(a);
    let eb = spec_escape_char(b);
    lemma_escape_char_nonempty(a);
    lemma_escape_char_nonempty(b);
    assert((ea + t1)[0] == ea[0]);
    assert((eb + t2)[0] == eb[0]);
    assert(ea[0] == eb[0]);
    if spec_is_plain(a) || spec_is_plain(b) {
        assert(a == b);
    } else {
        assert(ea[0] == '\\' && eb[0] == '\\');
        assert(ea.len() >= 2 && eb.len() >= 2);
        assert((ea + t1)[1] == ea[1]);
        assert((eb + t2)[1] == eb[1]);
        assert(ea[1] == eb[1]);
        if (a as u32) < 32 && a != '\u{8}' && a != '\t' && a != '\n' && a != '\u{c}' && a != '\r' {
            assert(ea[1] == 'u');
            assert((b as u32) < 32 && b != '\u{8}' && b != '\t' && b != '\n' && b != '\u{c}' && b
                != '\r');
            let va = a as u32;
            let vb = b as u32;
            assert((ea + t1)[4] == ea[4]);
            assert((eb + t2)[4] == eb[4]);
            assert((ea + t1)[5] == ea[5]);
            assert((eb + t2)[5] == eb[5]);
            lemma_hex_char_injective((va / 16) as nat, (vb / 16) as nat);
            lemma_hex_char_injective((va % 16) as nat, (vb % 16) as nat);
            vstd::arithmetic::div_mod::lemma_fundamental_div_mod(va as int, 16);
            vstd::arithmetic::div_mod::lemma_fundamental_div_mod(vb as int, 16);
            assert(va == vb);
            vstd::utf8::char_u32_cast(a, va);
            vstd::utf8::char_u32_cast(b, vb);
            assert(a == b);
        } else {
            assert(a == b);
        }
    }
    assert(ea == eb);
    assert((ea + t1).len() == ea.len() + t1.len());
    assert((eb + t2).len() == eb.len() + t2.len());
    assert(ea.len() + t1.len() == eb.len() + t2.len());
    assert(t1 =~= t2) by {
        assert forall|i: int| 0 <= i < t1.len() implies t1[i] == t2[i] by {
            assert((ea + t1)[ea.len() + i] == t1[i]);
            assert((eb + t2)[eb.len() + i] == t2[i]);
        }
    }
}

/// Escaping is injective: the escaped name inside a serialized user
/// determines the name that was supplied, so the wire form carries
/// exactly that name.
pub proof fn lemma_escape_injective(s1: Seq<char>, s2: Seq<char>)
    requires
        spec_escape(s1) == spec_escape(s2),
    ensures
        s1 == s2,
    decreases s1.len(),
{
    if s1.len() == 0 {
        if s2.len() > 0 {
            lemma_escape_char_nonempty(s2[0]);
            assert(spec_escape(s2) == spec_escape_char(s2[0]) + spec_escape(s2.skip(1)));
            assert(spec_escape(s2).len() >= 1);
            assert(false);
        }
        assert(s1 =~= s2);
    } else {
        if s2.len() == 0 {
            lemma_escape_char_nonempty(s1[0]);
            assert(spec_escape(s1) == spec_escape_char(s1[0]) + spec_escape(s1.skip(1)));
            assert(spec_escape(s1).len() >= 1);
            assert(false);
        }
        lemma_escape_char_prefix(s1[0], s2[0], spec_escape(s1.skip(1)), spec_escape(s2.skip(1)));
        lemma_escape_injective(s1.skip(1), s2.skip(1));
        assert(s1 =~= s2) by {
            assert(s1.skip(1).len() == s2.skip(1).len());
            assert(s1.len() == s2.len());
            assert forall|i: int| 0 <= i < s1.len() implies s1[i] == s2[i] by {
                if i > 0 {
                    assert(s1.skip(1)[i - 1] == s1[i]);
                    assert(s2.skip(1)[i - 1] == s2[i]);
                }
            }
        }
    }
}

// ---------------------------------------------------------------------------
// The user object
// ---------------------------------------------------------------------------

/// The JSON wire form of a user: `{"id":<digits>,"name":"<escaped>"}`.
pub open spec fn spec_user_json(id: u32, name: Seq<char>) -> Seq<char> {
    ("{\"id\":")@ + spec_decimal(id as nat) + (",\"name\":\"")@ + spec_escape(name) + ("\"}")@
}

/// For a fixed identifier, the wire form determines the name: a reply
/// body admits only one reading of its `name` field, so the reply to a
/// creation carries exactly the name that was supplied.
pub proof fn lemma_user_json_name_determined(id: u32, n1: Seq<char>, n2: Seq<char>)
    requires
        spec_user_json(id, n1) == spec_user_json(id, n2),
    ensures
        n1 == n2,
{
    let p = ("{\"id\":")@ + spec_decimal(id as nat) + (",\"name\":\"")@;
    let q = ("\"}")@;
    let e1 = spec_escape(n1);
    let e2 = spec_escape(n2);
    assert(spec_user_json(id, n1) =~= p + e1 + q);
    assert(spec_user_json(id, n2) =~= p + e2 + q);
    assert((p + e1 + q).len() == p.len() + e1.len() + q.len());
    assert((p + e2 + q).len() == p.len() + e2.len() + q.len());
    assert(e1.len() == e2.len());
    assert(e1 =~= e2) by {
        assert forall|i: int| 0 <= i < e1.len() implies e1[i] == e2[i] by {
            assert((p + e1)[p.len() + i] == e1[i]);
            assert((p + e1 + q)[p.len() + i] == (p + e1)[p.len() + i]);
            assert((p + e2)[p.len() + i] == e2[i]);
            assert((p + e2 + q)[p.len() + i] == (p + e2)[p.len() + i]);
        }
    }
    lemma_escape_injective(n1, n2);
}

/// Serializes a user into its JSON wire form.
pub fn user_json(id: u32, name: &str) -> (r: String)
    ensures
        r@ == spec_user_json(id, name@),
{
    let mut out = String::from_str("{\"id\":");
    let digits = encode_u32(id);
    out.append(digits.as_str());
    out.append(",\"name\":\"");
    let escaped = escape_json(name);
    out.append(escaped.as_str());
    out.append("\"}");
    proof {
        assert(out@ =~= spec_user_json(id, name@));
    }
    out
}

} // verus!
