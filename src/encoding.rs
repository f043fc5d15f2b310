use base64::Engine as _;
use vstd::prelude::*;

verus! {

/// The character of the standard base64 alphabet (RFC 4648, section 4) for a
/// six-bit value `v`, 0 <= v < 64.
pub open spec fn sextet_char(v: int) -> char {
    if v < 26 {
        (v + 65) as char
    } else if v < 52 {
        (v - 26 + 97) as char
    } else if v < 62 {
        (v - 52 + 48) as char
    } else if v == 62 {
        '+'
    } else {
        '/'
    }
}

/// The six-bit value of a character of the standard base64 alphabet.
pub open spec fn sextet_value(c: char) -> int {
    if 'A' <= c && c <= 'Z' {
        c as int - 65
    } else if 'a' <= c && c <= 'z' {
        c as int - 97 + 26
    } else if '0' <= c && c <= '9' {
        c as int - 48 + 52
    } else if c == '+' {
        62
    } else {
        63
    }
}

/// Whether `c` belongs to the standard base64 alphabet.
pub open spec fn is_sextet_char(c: char) -> bool {
    ('A' <= c && c <= 'Z') || ('a' <= c && c <= 'z') || ('0' <= c && c <= '9') || c == '+' || c
        == '/'
}

/// Four characters for three bytes.
pub open spec fn encode_triple(a: u8, b: u8, c: u8) -> Seq<char> {
    seq![
        sextet_char(a as int / 4),
        sextet_char((a as int % 4) * 16 + b as int / 16),
        sextet_char((b as int % 16) * 4 + c as int / 64),
        sextet_char(c as int % 64),
    ]
}

/// Standard base64 of `b`, padded with '=' to a multiple of four characters.
pub open spec fn base64_of(b: Seq<u8>) -> Seq<char>
    decreases b.len(),
{
    if b.len() == 0 {
        seq![]
    } else if b.len() == 1 {
        seq![sextet_char(b[0] as int / 4), sextet_char((b[0] as int % 4) * 16), '=', '=']
    } else if b.len() == 2 {
        seq![
            sextet_char(b[0] as int / 4),
            sextet_char((b[0] as int % 4) * 16 + b[1] as int / 16),
            sextet_char((b[1] as int % 16) * 4),
            '=',
        ]
    } else {
        encode_triple(b[0], b[1], b[2]) + base64_of(b.subrange(3, b.len() as int))
    }
}

/// Whether `s` is padded standard base64: groups of four alphabet characters,
/// the last group ending in at most two '='.
pub open spec fn is_base64(s: Seq<char>) -> bool {
    &&& s.len() % 4 == 0
    &&& forall|i: int|
        0 <= i < s.len() ==> (is_sextet_char(#[trigger] s[i]) || (s[i] == '=' && i >= s.len()
            - 2 && (i == s.len() - 2 ==> s[i + 1] == '=')))
}

/// The bytes that a padded base64 text stands for.
pub open spec fn base64_decode(s: Seq<char>) -> Seq<u8>
    decreases s.len(),
{
    if s.len() < 4 {
        seq![]
    } else {
        let v0 = sextet_value(s[0]);
        let v1 = sextet_value(s[1]);
        let v2 = sextet_value(s[2]);
        let v3 = sextet_value(s[3]);
        let a = (v0 * 4 + v1 / 16) as u8;
        let b = ((v1 % 16) * 16 + v2 / 4) as u8;
        let c = ((v2 % 4) * 64 + v3) as u8;
        if s[2] == '=' {
            seq![a]
        } else if s[3] == '=' {
            seq![a, b]
        } else {
            seq![a, b, c] + base64_decode(s.subrange(4, s.len() as int))
        }
    }
}

/// The largest input that the base64 encoder can size its output for.
pub open spec fn encodable(len: nat) -> bool {
    len <= (usize::MAX / 4) * 3
}

/// Relies on base64's `engine::general_purpose::STANDARD.encode`: standard
/// alphabet, padded (RFC 4648, section 4). It panics only where the output
/// length overflows `usize`.
#[verifier::external_body]
pub(crate) fn encode_standard(bytes: &Vec<u8>) -> (r: String)
    requires
        encodable(bytes@.len()),
    ensures
        r@ == base64_of(bytes@),
{
    base64::engine::general_purpose::STANDARD.encode(bytes.as_slice())
}

proof fn lemma_sextet_round_trip(v: int)
    requires
        0 <= v < 64,
    ensures
        is_sextet_char(sextet_char(v)),
        sextet_value(sextet_char(v)) == v,
{
}

proof fn lemma_triple_round_trip(a: u8, b: u8, c: u8)
    ensures
        ({
            let v0 = a as int / 4;
            let v1 = (a as int % 4) * 16 + b as int / 16;
            let v2 = (b as int % 16) * 4 + c as int / 64;
            let v3 = c as int % 64;
            &&& 0 <= v0 < 64 && 0 <= v1 < 64 && 0 <= v2 < 64 && 0 <= v3 < 64
            &&& (v0 * 4 + v1 / 16) as u8 == a
            &&& ((v1 % 16) * 16 + v2 / 4) as u8 == b
            &&& ((v2 % 4) * 64 + v3) as u8 == c
        }),
{
}

/// Base64 text is four characters for every three bytes, rounded up, and the
/// length of the encoding of `b`.
pub proof fn lemma_base64_len(b: Seq<u8>)
    ensures
        base64_of(b).len() == 4 * ((b.len() + 2) / 3),
    decreases b.len(),
{
    if b.len() >= 3 {
        lemma_base64_len(b.subrange(3, b.len() as int));
    }
}

/// The encoding of any bytes is well-formed padded base64, and decoding it
/// gives the bytes back.
pub proof fn lemma_base64_round_trip(b: Seq<u8>)
    ensures
        is_base64(base64_of(b)),
        base64_decode(base64_of(b)) == b,
    decreases b.len(),
{
    let s = base64_of(b);
    if b.len() == 0 {
    } else if b.len() == 1 {
        lemma_triple_round_trip(b[0], 0, 0);
        lemma_sextet_round_trip(b[0] as int / 4);
        lemma_sextet_round_trip((b[0] as int % 4) * 16);
        assert(base64_decode(s) =~= b);
    } else if b.len() == 2 {
        lemma_triple_round_trip(b[0], b[1], 0);
        lemma_sextet_round_trip(b[0] as int / 4);
        lemma_sextet_round_trip((b[0] as int % 4) * 16 + b[1] as int / 16);
        lemma_sextet_round_trip((b[1] as int % 16) * 4);
        assert(base64_decode(s) =~= b);
    } else {
        let rest = b.subrange(3, b.len() as int);
        lemma_base64_round_trip(rest);
        lemma_base64_len(rest);
        lemma_triple_round_trip(b[0], b[1], b[2]);
        lemma_sextet_round_trip(b[0] as int / 4);
        lemma_sextet_round_trip((b[0] as int % 4) * 16 + b[1] as int / 16);
        lemma_sextet_round_trip((b[1] as int % 16) * 4 + b[2] as int / 64);
        lemma_sextet_round_trip(b[2] as int % 64);
        let head = encode_triple(b[0], b[1], b[2]);
        let tail = base64_of(rest);
        assert(s == head + tail);
        assert(s.subrange(4, s.len() as int) =~= tail);
        assert forall|i: int| 0 <= i < s.len() implies (is_sextet_char(#[trigger] s[i]) || (s[i]
            == '=' && i >= s.len() - 2 && (i == s.len() - 2 ==> s[i + 1] == '='))) by {
            if i >= 4 {
                assert(s[i] == tail[i - 4]);
                if i == s.len() - 2 && s[i] == '=' {
                    assert(s[i + 1] == tail[i - 3]);
                }
            }
        }
        assert(base64_decode(s) =~= b);
    }
}

} // verus!
