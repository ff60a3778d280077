//! JSON string literals, as `serde_json` writes them.
use vstd::prelude::*;

verus! {

/// The optional text held by an optional string.
pub open spec fn opt_text(o: Option<String>) -> Option<Seq<char>> {
    match o {
        Some(s) => Some(s@),
        None => None,
    }
}

/// A lower-case hexadecimal digit for `d < 16`.
pub open spec fn hex_digit(d: nat) -> char {
    if d < 10 {
        (48 + d) as char
    } else {
        (87 + d) as char
    }
}

/// How one character stands inside a JSON string literal: quote and
/// backslash are escaped, the control characters below U+0020 are written as
/// `\b`, `\t`, `\n`, `\f`, `\r` or `\u00XX`, and every other character stands
/// for itself.
pub open spec fn json_escape(c: char) -> Seq<char> {
    let n = c as u32;
    if c == '"' {
        seq!['\\', '"']
    } else if c == '\\' {
        seq!['\\', '\\']
    } else if n == 0x08 {
        seq!['\\', 'b']
    } else if n == 0x09 {
        seq!['\\', 't']
    } else if n == 0x0A {
        seq!['\\', 'n']
    } else if n == 0x0C {
        seq!['\\', 'f']
    } else if n == 0x0D {
        seq!['\\', 'r']
    } else if n < 0x20 {
        seq!['\\', 'u', '0', '0', hex_digit((n / 16) as nat), hex_digit((n % 16) as nat)]
    } else {
        seq![c]
    }
}

/// The characters of `s`, each escaped as in a JSON string literal.
pub open spec fn json_escaped(s: Seq<char>) -> Seq<char>
    decreases s.len(),
{
    if s.len() == 0 {
        seq![]
    } else {
        json_escaped(s.drop_last()) + json_escape(s.last())
    }
}

/// The JSON string literal for `s`: its escaped characters between double quotes.
pub open spec fn json_string_literal(s: Seq<char>) -> Seq<char> {
    seq!['"'] + json_escaped(s) + seq!['"']
}

/// `serde_json::to_string` on a string slice. serde_json writes the opening
/// quote, the characters with those of its escape table (`ESCAPE` in ser.rs)
/// escaped, and the closing quote, into a `Vec<u8>`; writing to a vector
/// cannot fail, so the `Err` arm is never taken.
#[verifier::external_body]
pub(crate) fn quote(s: &str) -> (r: String)
    ensures
        r@ == json_string_literal(s@),
{
    match serde_json::to_string(s) {
        Ok(t) => t,
        Err(_) => String::new(),
    }
}

/// Every escaped character is written with at least one character, and never
/// starts with a bare double quote.
pub proof fn lemma_escape_shape(c: char)
    ensures
        json_escape(c).len() >= 1,
        json_escape(c)[0] != '"',
        json_escape(c)[0] == '\\' || json_escape(c) == seq![c],
{
}

/// Escaping a text works character by character from the front as well.
pub proof fn lemma_escaped_front(s: Seq<char>)
    requires
        s.len() > 0,
    ensures
        json_escaped(s) == json_escape(s[0]) + json_escaped(s.drop_first()),
    decreases s.len(),
{
    if s.len() == 1 {
        assert(s.drop_last() =~= Seq::<char>::empty());
        assert(s.drop_first() =~= Seq::<char>::empty());
        assert(json_escaped(Seq::<char>::empty()) == Seq::<char>::empty());
        assert(json_escaped(s) =~= json_escape(s[0]));
    } else {
        let init = s.drop_last();
        lemma_escaped_front(init);
        assert(init.drop_first() =~= s.drop_first().drop_last());
        assert(s.drop_first().last() == s.last());
        assert(json_escaped(s.drop_first()) == json_escaped(s.drop_first().drop_last())
            + json_escape(s.drop_first().last()));
        assert(json_escaped(s) =~= json_escape(s[0]) + json_escaped(s.drop_first()));
    }
}

/// The escape of a character can be told apart from that of any other
/// character, whatever follows either of them.
pub proof fn lemma_escape_unique(a: char, b: char, r1: Seq<char>, r2: Seq<char>)
    requires
        json_escape(a) + r1 == json_escape(b) + r2,
    ensures
        a == b,
        r1 == r2,
{
    let x = json_escape(a);
    let y = json_escape(b);
    let w1 = x + r1;
    let w2 = y + r2;
    lemma_escape_shape(a);
    lemma_escape_shape(b);
    assert(w1[0] == x[0] && w2[0] == y[0]);
    if x[0] != '\\' {
        assert(x == seq![a]);
        if y[0] == '\\' {
            assert(false);
        }
        assert(y == seq![b]);
        assert(a == b);
    } else {
        assert(y[0] == '\\');
        assert(x.len() >= 2 && y.len() >= 2);
        assert(w1[1] == x[1] && w2[1] == y[1]);
        let na = a as u32;
        let nb = b as u32;
        if x[1] == 'u' {
            assert(na < 0x20);
            assert(w1[4] == x[4] && w1[5] == x[5]);
            assert(y[1] == 'u');
            assert(nb < 0x20);
            assert(w2[4] == y[4] && w2[5] == y[5]);
            assert(na / 16 == nb / 16) by {
                assert(x[4] == hex_digit((na / 16) as nat));
                assert(y[4] == hex_digit((nb / 16) as nat));
            }
            assert(na % 16 == nb % 16) by {
                assert(x[5] == hex_digit((na % 16) as nat));
                assert(y[5] == hex_digit((nb % 16) as nat));
            }
            assert(na == nb);
        }
        assert(a == b);
    }
    assert(x == y);
    assert(r1 =~= w1.subrange(x.len() as int, w1.len() as int));
    assert(r2 =~= w2.subrange(y.len() as int, w2.len() as int));
}

/// An escaped text followed by nothing or by a bare double quote determines
/// both the text and what follows it.
pub proof fn lemma_escaped_then_quote_unique(
    s1: Seq<char>,
    t1: Seq<char>,
    s2: Seq<char>,
    t2: Seq<char>,
)
    requires
        t1.len() == 0 || t1[0] == '"',
        t2.len() == 0 || t2[0] == '"',
        json_escaped(s1) + t1 == json_escaped(s2) + t2,
    ensures
        s1 == s2,
        t1 == t2,
    decreases s1.len() + s2.len(),
{
    if s1.len() == 0 && s2.len() == 0 {
        assert(json_escaped(s1) == Seq::<char>::empty());
        assert(json_escaped(s2) == Seq::<char>::empty());
        assert(t1 =~= json_escaped(s1) + t1);
        assert(t2 =~= json_escaped(s2) + t2);
    } else if s1.len() == 0 {
        assert(json_escaped(s1) == Seq::<char>::empty());
        assert(t1 =~= json_escaped(s1) + t1);
        lemma_escaped_front(s2);
        lemma_escape_shape(s2[0]);
        let w = json_escaped(s2) + t2;
        assert(w[0] == json_escape(s2[0])[0]);
        assert(false);
    } else if s2.len() == 0 {
        assert(json_escaped(s2) == Seq::<char>::empty());
        assert(t2 =~= json_escaped(s2) + t2);
        lemma_escaped_front(s1);
        lemma_escape_shape(s1[0]);
        let w = json_escaped(s1) + t1;
        assert(w[0] == json_escape(s1[0])[0]);
        assert(false);
    } else {
        lemma_escaped_front(s1);
        lemma_escaped_front(s2);
        let r1 = json_escaped(s1.drop_first()) + t1;
        let r2 = json_escaped(s2.drop_first()) + t2;
        assert(json_escaped(s1) + t1 =~= json_escape(s1[0]) + r1);
        assert(json_escaped(s2) + t2 =~= json_escape(s2[0]) + r2);
        lemma_escape_unique(s1[0], s2[0], r1, r2);
        lemma_escaped_then_quote_unique(s1.drop_first(), t1, s2.drop_first(), t2);
        assert(s1 =~= seq![s1[0]] + s1.drop_first());
        assert(s2 =~= seq![s2[0]] + s2.drop_first());
    }
}

/// Different texts have different JSON string literals.
pub proof fn lemma_string_literal_injective(s1: Seq<char>, s2: Seq<char>)
    requires
        json_string_literal(s1) == json_string_literal(s2),
    ensures
        s1 == s2,
{
    let l1 = json_string_literal(s1);
    let l2 = json_string_literal(s2);
    assert(l1.drop_first() =~= json_escaped(s1) + seq!['"']);
    assert(l2.drop_first() =~= json_escaped(s2) + seq!['"']);
    lemma_escaped_then_quote_unique(s1, seq!['"'], s2, seq!['"']);
}

} // verus!
