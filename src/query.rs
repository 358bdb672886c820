//! Percent-encoding of query-string values.
use vstd::prelude::*;
use vstd::utf8::encode_utf8;

verus! {

/// Characters that stand for themselves in a query value: ASCII letters,
/// digits and `-`, `.`, `_`, `~`.
pub open spec fn is_unreserved(c: char) -> bool {
    ('A' <= c && c <= 'Z') || ('a' <= c && c <= 'z') || ('0' <= c && c <= '9') || c == '-' || c
        == '.' || c == '_' || c == '~'
}

/// The upper-case hexadecimal digit for `d % 16`.
pub open spec fn hex_char(d: nat) -> char {
    let m = d % 16;
    if m == 0 {
        '0'
    } else if m == 1 {
        '1'
    } else if m == 2 {
        '2'
    } else if m == 3 {
        '3'
    } else if m == 4 {
        '4'
    } else if m == 5 {
        '5'
    } else if m == 6 {
        '6'
    } else if m == 7 {
        '7'
    } else if m == 8 {
        '8'
    } else if m == 9 {
        '9'
    } else if m == 10 {
        'A'
    } else if m == 11 {
        'B'
    } else if m == 12 {
        'C'
    } else if m == 13 {
        'D'
    } else if m == 14 {
        'E'
    } else {
        'F'
    }
}

/// `%XX` for each byte, in order.
pub open spec fn escape_bytes(b: Seq<u8>) -> Seq<char>
    decreases b.len(),
{
    if b.len() == 0 {
        Seq::empty()
    } else {
        escape_bytes(b.drop_last()) + seq!['%', hex_char((b.last() / 16) as nat), hex_char((b.last() % 16) as nat)]
    }
}

/// An unreserved character as itself; any other as the escapes of its UTF-8
/// bytes.
pub open spec fn escape_char(c: char) -> Seq<char> {
    if is_unreserved(c) {
        seq![c]
    } else {
        escape_bytes(encode_utf8(seq![c]))
    }
}

/// The percent-encoding of a text, character by character.
pub open spec fn escaped(s: Seq<char>) -> Seq<char>
    decreases s.len(),
{
    if s.len() == 0 {
        Seq::empty()
    } else {
        escaped(s.drop_last()) + escape_char(s.last())
    }
}

fn hex_str(d: u8) -> (r: &'static str)
    requires
        d < 16,
    ensures
        r@ == seq![hex_char(d as nat)],
{
    proof {
        reveal_strlit("0");
        reveal_strlit("1");
        reveal_strlit("2");
        reveal_strlit("3");
        reveal_strlit("4");
        reveal_strlit("5");
        reveal_strlit("6");
        reveal_strlit("7");
        reveal_strlit("8");
        reveal_strlit("9");
        reveal_strlit("A");
        reveal_strlit("B");
        reveal_strlit("C");
        reveal_strlit("D");
        reveal_strlit("E");
        reveal_strlit("F");
    }
    if d == 0 {
        "0"
    } else if d == 1 {
        "1"
    } else if d == 2 {
        "2"
    } else if d == 3 {
        "3"
    } else if d == 4 {
        "4"
    } else if d == 5 {
        "5"
    } else if d == 6 {
        "6"
    } else if d == 7 {
        "7"
    } else if d == 8 {
        "8"
    } else if d == 9 {
        "9"
    } else if d == 10 {
        "A"
    } else if d == 11 {
        "B"
    } else if d == 12 {
        "C"
    } else if d == 13 {
        "D"
    } else if d == 14 {
        "E"
    } else {
        "F"
    }
}

fn unreserved(c: char) -> (r: bool)
    ensures
        r == is_unreserved(c),
{
    (c >= 'A' && c <= 'Z') || (c >= 'a' && c <= 'z') || (c >= '0' && c <= '9') || c == '-' || c
        == '.' || c == '_' || c == '~'
}

fn append_escaped_bytes(out: &mut String, bytes: &[u8])
    ensures
        final(out)@ == old(out)@ + escape_bytes(bytes@),
{
    let mut j: usize = 0;
    while j < bytes.len()
        invariant
            j <= bytes@.len(),
            out@ == old(out)@ + escape_bytes(bytes@.subrange(0, j as int)),
        decreases bytes@.len() - j,
    {
        let b = bytes[j];
        let ghost before = out@;
        out.append("%");
        out.append(hex_str(b / 16));
        out.append(hex_str(b % 16));
        proof {
            reveal_strlit("%");
            assert("%"@ =~= seq!['%']);
            let done = bytes@.subrange(0, j + 1);
            assert(done.drop_last() =~= bytes@.subrange(0, j as int));
            assert(done.last() == b);
            assert(out@ =~= before + seq!['%', hex_char((b / 16) as nat), hex_char((b % 16) as nat)]);
            assert(out@ =~= old(out)@ + escape_bytes(done));
        }
        j += 1;
    }
    assert(bytes@.subrange(0, j as int) =~= bytes@);
}

/// Percent-encodes `s` for use as a query value.
pub fn escape_query_value(s: &str) -> (r: String)
    ensures
        r@ == escaped(s@),
{
    let n = s.unicode_len();
    let mut out = String::new();
    let mut i: usize = 0;
    while i < n
        invariant
            i <= n,
            n == s@.len(),
            out@ == escaped(s@.subrange(0, i as int)),
        decreases n - i,
    {
        let c = s.get_char(i);
        let piece = s.substring_char(i, i + 1);
        assert(piece@ =~= seq![c]);
        let ghost before = out@;
        if unreserved(c) {
            out.append(piece);
        } else {
            append_escaped_bytes(&mut out, piece.as_bytes());
        }
        proof {
            let done = s@.subrange(0, i + 1);
            assert(done.drop_last() =~= s@.subrange(0, i as int));
            assert(done.last() == c);
            assert(out@ =~= escaped(done));
        }
        i += 1;
    }
    assert(s@.subrange(0, n as int) =~= s@);
    out
}

} // verus!
