//! Base64 with the standard alphabet and mandatory padding: the form in which
//! the agent sends file bytes inside JSON.
use vstd::prelude::*;

use crate::text::chars_of;

verus! {

/// The character that stands for the six-bit value `v`.
pub open spec fn symbol(v: int) -> char {
    if v < 26 {
        (65 + v) as char
    } else if v < 52 {
        (97 + (v - 26)) as char
    } else if v < 62 {
        (48 + (v - 52)) as char
    } else if v == 62 {
        '+'
    } else {
        '/'
    }
}

/// The six-bit value that `c` stands for.
pub open spec fn sextet(c: char) -> Option<int> {
    let n = c as int;
    if 65 <= n <= 90 {
        Some(n - 65)
    } else if 97 <= n <= 122 {
        Some(n - 97 + 26)
    } else if 48 <= n <= 57 {
        Some(n - 48 + 52)
    } else if c == '+' {
        Some(62)
    } else if c == '/' {
        Some(63)
    } else {
        None
    }
}

/// The text of `bytes`: four characters for three bytes, the last group padded
/// with `=`.
pub open spec fn encode(bytes: Seq<u8>) -> Seq<char>
    decreases bytes.len(),
{
    if bytes.len() == 0 {
        Seq::empty()
    } else if bytes.len() == 1 {
        let a = bytes[0] as int;
        seq![symbol(a / 4), symbol(a % 4 * 16), '=', '=']
    } else if bytes.len() == 2 {
        let a = bytes[0] as int;
        let b = bytes[1] as int;
        seq![symbol(a / 4), symbol(a % 4 * 16 + b / 16), symbol(b % 16 * 4), '=']
    } else {
        let a = bytes[0] as int;
        let b = bytes[1] as int;
        let c = bytes[2] as int;
        seq![
            symbol(a / 4),
            symbol(a % 4 * 16 + b / 16),
            symbol(b % 16 * 4 + c / 64),
            symbol(c % 64),
        ] + encode(bytes.skip(3))
    }
}

/// The bytes that `text` stands for, where it is well formed: whole groups of
/// four, padding only at the end, and no bit set that the padding cuts off.
pub open spec fn decode(text: Seq<char>) -> Option<Seq<u8>>
    decreases text.len(),
{
    if text.len() == 0 {
        Some(Seq::empty())
    } else if text.len() < 4 {
        None
    } else {
        match (sextet(text[0]), sextet(text[1])) {
            (Some(p), Some(q)) => {
                if text.len() == 4 && text[2] == '=' && text[3] == '=' {
                    if q % 16 == 0 {
                        Some(seq![(p * 4 + q / 16) as u8])
                    } else {
                        None
                    }
                } else {
                    match sextet(text[2]) {
                        Some(r) => {
                            if text.len() == 4 && text[3] == '=' {
                                if r % 4 == 0 {
                                    Some(
                                        seq![
                                            (p * 4 + q / 16) as u8,
                                            (q % 16 * 16 + r / 4) as u8,
                                        ],
                                    )
                                } else {
                                    None
                                }
                            } else {
                                match (sextet(text[3]), decode(text.skip(4))) {
                                    (Some(s), Some(rest)) => Some(
                                        seq![
                                            (p * 4 + q / 16) as u8,
                                            (q % 16 * 16 + r / 4) as u8,
                                            (r % 4 * 64 + s) as u8,
                                        ] + rest,
                                    ),
                                    _ => None,
                                }
                            }
                        },
                        None => None,
                    }
                }
            },
            _ => None,
        }
    }
}

proof fn lemma_symbol(v: int)
    requires
        0 <= v < 64,
    ensures
        sextet(symbol(v)) == Some(v),
        symbol(v) != '=',
{
}

proof fn lemma_sextet(c: char)
    ensures
        sextet(c) matches Some(v) ==> 0 <= v < 64 && symbol(v) == c,
        sextet('=') is None,
{
}

/// Decoding an encoded byte string gives the bytes back.
pub proof fn law_decode_encode(bytes: Seq<u8>)
    ensures
        decode(encode(bytes)) == Some(bytes),
    decreases bytes.len(),
{
    if bytes.len() == 0 {
    } else {
        let a = bytes[0] as int;
        lemma_symbol(a / 4);
        lemma_sextet('=');
        if bytes.len() == 1 {
            lemma_symbol(a % 4 * 16);
            assert(decode(encode(bytes))->0 =~= bytes);
        } else {
            let b = bytes[1] as int;
            lemma_symbol(a % 4 * 16 + b / 16);
            if bytes.len() == 2 {
                lemma_symbol(b % 16 * 4);
                assert(decode(encode(bytes))->0 =~= bytes);
            } else {
                let c = bytes[2] as int;
                lemma_symbol(b % 16 * 4 + c / 64);
                lemma_symbol(c % 64);
                law_decode_encode(bytes.skip(3));
                assert(encode(bytes).skip(4) =~= encode(bytes.skip(3)));
                assert(decode(encode(bytes))->0 =~= bytes);
            }
        }
    }
}

/// Only the encoding of a byte string decodes to it: no two texts stand for the
/// same bytes.
pub proof fn law_encode_decode(text: Seq<char>)
    ensures
        decode(text) matches Some(bytes) ==> encode(bytes) == text,
    decreases text.len(),
{
    if text.len() >= 4 {
        lemma_sextet(text[0]);
        lemma_sextet(text[1]);
        lemma_sextet(text[2]);
        lemma_sextet(text[3]);
        law_encode_decode(text.skip(4));
        if let Some(bytes) = decode(text) {
            let p = sextet(text[0])->0;
            let q = sextet(text[1])->0;
            assert(bytes[0] == p * 4 + q / 16);
            if text.len() == 4 && text[2] == '=' && text[3] == '=' {
                assert(encode(bytes) =~= text);
            } else {
                let r = sextet(text[2])->0;
                assert(bytes[1] == q % 16 * 16 + r / 4);
                if text.len() == 4 && text[3] == '=' {
                    assert(encode(bytes) =~= text);
                } else {
                    let s = sextet(text[3])->0;
                    assert(bytes[2] == r % 4 * 64 + s);
                    assert(bytes.skip(3) =~= decode(text.skip(4))->0);
                    assert(encode(bytes) =~= text);
                }
            }
        }
    }
}

fn sextet_of(c: char) -> (v: Option<u8>)
    ensures
        match v {
            Some(x) => x < 64 && sextet(c) == Some(x as int),
            None => sextet(c) is None,
        },
{
    let n: u32 = c as u32;
    if 65 <= n && n <= 90 {
        Some((n - 65) as u8)
    } else if 97 <= n && n <= 122 {
        Some((n - 97 + 26) as u8)
    } else if 48 <= n && n <= 57 {
        Some((n - 48 + 52) as u8)
    } else if c == '+' {
        Some(62)
    } else if c == '/' {
        Some(63)
    } else {
        None
    }
}

/// The bytes that `text` stands for; nothing where it is not well formed.
pub fn decode_base64(text: &str) -> (bytes: Option<Vec<u8>>)
    ensures
        match bytes {
            Some(b) => decode(text@) == Some(b@),
            None => decode(text@) is None,
        },
{
    let t = chars_of(text);
    let mut out: Vec<u8> = Vec::new();
    let mut i: usize = 0;
    assert(t@.skip(0) == t@);
    while i < t.len()
        invariant
            i <= t.len(),
            t@ == text@,
            decode(t@) == match decode(t@.skip(i as int)) {
                Some(rest) => Some(out@ + rest),
                None => None,
            },
        decreases t.len() - i,
    {
        let ghost tail = t@.skip(i as int);
        let left: usize = t.len() - i;
        if left < 4 {
            return None;
        }
        assert(tail[0] == t[i as int] && tail[1] == t[i + 1] && tail[2] == t[i + 2] && tail[3] == t[
            i + 3]);
        let (p, q) = match (sextet_of(t[i]), sextet_of(t[i + 1])) {
            (Some(p), Some(q)) => (p, q),
            _ => {
                return None;
            },
        };
        if left == 4 && t[i + 2] == '=' && t[i + 3] == '=' {
            if q % 16 != 0 {
                return None;
            }
            let ghost before = out@;
            out.push(p * 4 + q / 16);
            assert(out@ == before + seq![(p * 4 + q / 16) as u8]);
            return Some(out);
        }
        let r: u8 = match sextet_of(t[i + 2]) {
            Some(r) => r,
            None => {
                return None;
            },
        };
        if left == 4 && t[i + 3] == '=' {
            if r % 4 != 0 {
                return None;
            }
            let ghost before = out@;
            out.push(p * 4 + q / 16);
            out.push(q % 16 * 16 + r / 4);
            assert(out@ == before + seq![(p * 4 + q / 16) as u8, (q % 16 * 16 + r / 4) as u8]);
            return Some(out);
        }
        let s: u8 = match sextet_of(t[i + 3]) {
            Some(s) => s,
            None => {
                return None;
            },
        };
        let ghost before = out@;
        let ghost group = seq![
            (p * 4 + q / 16) as u8,
            (q % 16 * 16 + r / 4) as u8,
            (r % 4 * 64 + s) as u8,
        ];
        out.push(p * 4 + q / 16);
        out.push(q % 16 * 16 + r / 4);
        out.push(r % 4 * 64 + s);
        i += 4;
        proof {
            assert(out@ == before + group);
            assert(tail.skip(4) == t@.skip(i as int));
            if let Some(rest) = decode(t@.skip(i as int)) {
                assert(decode(tail) == Some(group + rest));
                assert(before + (group + rest) == out@ + rest);
            }
        }
    }
    assert(t@.skip(i as int) == Seq::<char>::empty());
    assert(out@ + Seq::<u8>::empty() == out@);
    Some(out)
}

} // verus!
