//! Percent-decoding of query-string values, as the redirect's browser sends
//! them: `%XX` becomes the byte `XX`, `+` becomes a space, and a `%` followed
//! by fewer than two characters, or by two characters that are not both
//! hexadecimal digits, is kept verbatim — decoding never fails.  An encoder
//! for printable ASCII is provided as the inverse.

use vstd::prelude::*;

verus! {

/// Whether `c` is a hexadecimal digit.
pub open spec fn is_hex_digit(c: char) -> bool {
    (48 <= c as u32 && c as u32 <= 57) || (97 <= c as u32 && c as u32 <= 102) || (65 <= c as u32
        && c as u32 <= 70)
}

/// The value of one hexadecimal digit.
pub open spec fn hex_val(c: char) -> int {
    let u = c as u32 as int;
    if 48 <= u && u <= 57 {
        u - 48
    } else if 97 <= u && u <= 102 {
        u - 87
    } else {
        u - 55
    }
}

/// The character encoded by the two hexadecimal digits `h` and `l`.
pub open spec fn decoded_char(h: char, l: char) -> char {
    ((hex_val(h) * 16 + hex_val(l)) as u8) as char
}

/// Percent-decoding of a sequence of characters.
pub open spec fn decode_spec(s: Seq<char>) -> Seq<char>
    decreases s.len(),
{
    if s.len() == 0 {
        Seq::empty()
    } else if s[0] == '%' {
        if s.len() >= 3 && is_hex_digit(s[1]) && is_hex_digit(s[2]) {
            seq![decoded_char(s[1], s[2])] + decode_spec(s.skip(3))
        } else if s.len() >= 3 {
            seq!['%', s[1], s[2]] + decode_spec(s.skip(3))
        } else {
            s
        }
    } else if s[0] == '+' {
        seq![' '] + decode_spec(s.skip(1))
    } else {
        seq![s[0]] + decode_spec(s.skip(1))
    }
}

/// The value of `c` when it is a hexadecimal digit.
fn hex_digit_val(c: char) -> (r: Option<u8>)
    ensures
        r is Some <==> is_hex_digit(c),
        r is Some ==> r->0 == hex_val(c),
{
    let u: u32 = c as u32;
    if 48 <= u && u <= 57 {
        Some((u - 48) as u8)
    } else if 97 <= u && u <= 102 {
        Some((u - 87) as u8)
    } else if 65 <= u && u <= 70 {
        Some((u - 55) as u8)
    } else {
        None
    }
}

/// Percent-decodes `v`, following `decode_spec`.
pub fn decode_chars(v: &[char]) -> (out: Vec<char>)
    ensures
        out@ == decode_spec(v@),
{
    let mut out: Vec<char> = Vec::new();
    let mut i: usize = 0;
    proof {
        assert(v@.skip(0) =~= v@);
    }
    while i < v.len()
        invariant
            0 <= i <= v@.len(),
            decode_spec(v@) =~= out@ + decode_spec(v@.skip(i as int)),
        decreases v@.len() - i,
    {
        let ghost rest = v@.skip(i as int);
        let c: char = v[i];
        if c == '%' {
            if v.len() - i >= 3 {
                let h: char = v[i + 1];
                let l: char = v[i + 2];
                proof {
                    assert(rest.len() >= 3);
                    assert(rest[1] == h && rest[2] == l);
                    assert(rest.skip(3) =~= v@.skip(i + 3));
                }
                match (hex_digit_val(h), hex_digit_val(l)) {
                    (Some(hv), Some(lv)) => {
                        out.push(((hv * 16 + lv) as u8) as char);
                        proof {
                            assert(((hv * 16 + lv) as u8) as char == decoded_char(h, l));
                        }
                    },
                    _ => {
                        out.push('%');
                        out.push(h);
                        out.push(l);
                    },
                }
                i = i + 3;
            } else {
                // Trailing incomplete escape: kept verbatim, input exhausted.
                out.push('%');
                if i + 1 < v.len() {
                    out.push(v[i + 1]);
                    proof {
                        assert(rest =~= seq!['%', v@[i + 1]]);
                    }
                } else {
                    proof {
                        assert(rest =~= seq!['%']);
                    }
                }
                i = v.len();
                proof {
                    assert(decode_spec(rest) == rest);
                }
            }
        } else if c == '+' {
            out.push(' ');
            i = i + 1;
            proof {
                assert(rest.skip(1) =~= v@.skip(i as int));
            }
        } else {
            out.push(c);
            i = i + 1;
            proof {
                assert(rest.skip(1) =~= v@.skip(i as int));
            }
        }
        proof {
            assert(decode_spec(v@) =~= out@ + decode_spec(v@.skip(i as int)));
        }
    }
    proof {
        assert(v@.skip(v@.len() as int) =~= Seq::<char>::empty());
    }
    out
}

/// Percent-decodes one value, as the query parser applies it.
pub fn urlencoding_decode(s: &str) -> (r: String)
    ensures
        r@ == decode_spec(s@),
{
    let v: Vec<char> = crate::text::str_to_chars(s);
    let out: Vec<char> = decode_chars(v.as_slice());
    let n: usize = out.len();
    crate::text::chars_to_string(out.as_slice(), 0, n)
}

/// The encoding of one character: space, `%` and `+` become escapes,
/// everything else stands for itself.
pub open spec fn enc_char(c: char) -> Seq<char> {
    if c == ' ' {
        seq!['%', '2', '0']
    } else if c == '%' {
        seq!['%', '2', '5']
    } else if c == '+' {
        seq!['%', '2', 'B']
    } else {
        seq![c]
    }
}

/// Percent-encoding of a sequence of characters.
pub open spec fn encode_spec(s: Seq<char>) -> Seq<char>
    decreases s.len(),
{
    if s.len() == 0 {
        Seq::empty()
    } else {
        enc_char(s[0]) + encode_spec(s.skip(1))
    }
}

/// Percent-encodes `s`, following `encode_spec`.
pub fn urlencoding_encode(s: &str) -> (r: String)
    ensures
        r@ == encode_spec(s@),
{
    let v: Vec<char> = crate::text::str_to_chars(s);
    let mut out: Vec<char> = Vec::new();
    let mut i: usize = 0;
    proof {
        assert(s@.skip(0) =~= s@);
    }
    while i < v.len()
        invariant
            0 <= i <= v@.len(),
            v@ == s@,
            encode_spec(s@) =~= out@ + encode_spec(s@.skip(i as int)),
        decreases v@.len() - i,
    {
        let ghost rest = s@.skip(i as int);
        let c: char = v[i];
        if c == ' ' {
            out.push('%');
            out.push('2');
            out.push('0');
        } else if c == '%' {
            out.push('%');
            out.push('2');
            out.push('5');
        } else if c == '+' {
            out.push('%');
            out.push('2');
            out.push('B');
        } else {
            out.push(c);
        }
        i = i + 1;
        proof {
            assert(rest.skip(1) =~= s@.skip(i as int));
            assert(encode_spec(s@) =~= out@ + encode_spec(s@.skip(i as int)));
        }
    }
    proof {
        assert(s@.skip(s@.len() as int) =~= Seq::<char>::empty());
    }
    let n: usize = out.len();
    crate::text::chars_to_string(out.as_slice(), 0, n)
}

/// Whether `c` is printable ASCII.
pub open spec fn is_printable_ascii(c: char) -> bool {
    32 <= c as u32 && c as u32 <= 126
}

/// Percent-decoding inverts percent-encoding on printable ASCII; in
/// particular `+` decodes to a space and every escape the encoder writes
/// decodes to the character it was written for.
pub proof fn lemma_encode_decode_roundtrip(s: Seq<char>)
    requires
        forall|i: int| 0 <= i < s.len() ==> is_printable_ascii(s[i]),
    ensures
        decode_spec(encode_spec(s)) == s,
    decreases s.len(),
{
    if s.len() == 0 {
        assert(decode_spec(encode_spec(s)) =~= s);
    } else {
        let c = s[0];
        let tail = s.skip(1);
        assert(forall|i: int| 0 <= i < tail.len() ==> is_printable_ascii(tail[i]));
        lemma_encode_decode_roundtrip(tail);
        let e = encode_spec(s);
        let et = encode_spec(tail);
        assert(e == enc_char(c) + et);
        if c == ' ' || c == '%' || c == '+' {
            assert(e.len() >= 3);
            assert(e[0] == '%' && is_hex_digit(e[1]) && is_hex_digit(e[2]));
            assert(e.skip(3) =~= et);
            assert(decoded_char(e[1], e[2]) == c);
            assert(decode_spec(e) =~= seq![c] + decode_spec(et));
        } else {
            assert(e[0] == c);
            assert(e.skip(1) =~= et);
            assert(decode_spec(e) =~= seq![c] + decode_spec(et));
        }
        assert(seq![c] + tail =~= s);
    }
}

/// A lone trailing `%`, or `%` plus one final character, decodes to itself.
pub proof fn lemma_trailing_percent(s: Seq<char>)
    requires
        1 <= s.len() <= 2,
        s[0] == '%',
    ensures
        decode_spec(s) == s,
{
}

/// A leading `+` decodes to a space, whatever follows it.
pub proof fn lemma_plus_decodes_to_space(s: Seq<char>)
    ensures
        decode_spec(seq!['+'] + s) == seq![' '] + decode_spec(s),
{
    let t = seq!['+'] + s;
    assert(t[0] == '+');
    assert(t.skip(1) =~= s);
}

} // verus!
