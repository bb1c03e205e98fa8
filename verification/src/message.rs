//! The view-event notification's wire format.
//!
//! The gateway tells the history recorder that a storage path was viewed by
//! posting one small JSON object, `{"video_path":<path>}`, with the path as
//! a JSON string.  This module produces that message and parses it back:
//! the encoder escapes the path's bytes, the parser accepts exactly the
//! messages the encoder can produce, and a proved law says the two compose
//! to the identity.
//!
//! Escaping works on the UTF-8 bytes of the path: the quote and the
//! backslash get their two-character escapes, control bytes get `\b`, `\t`,
//! `\n`, `\f`, `\r` or `\u00XX`, and every other byte — multi-byte UTF-8
//! sequences included — passes through unchanged.

use vstd::prelude::*;
use vstd::string::StrSliceExecFns;
use vstd::string::StringSliceAdditionalSpecFns;

verus! {

/// The ASCII hexadecimal digit (lower case) of a value below 16.
pub open spec fn hex_digit(n: u8) -> u8
    recommends
        n < 16,
{
    if n < 10 {
        (48 + n) as u8
    } else {
        (87 + n) as u8
    }
}

/// How one byte of a path appears inside the JSON string.
pub open spec fn escape_byte(b: u8) -> Seq<u8> {
    if b == 34 {
        seq![92u8, 34u8]
    } else if b == 92 {
        seq![92u8, 92u8]
    } else if b == 8 {
        seq![92u8, 98u8]
    } else if b == 9 {
        seq![92u8, 116u8]
    } else if b == 10 {
        seq![92u8, 110u8]
    } else if b == 12 {
        seq![92u8, 102u8]
    } else if b == 13 {
        seq![92u8, 114u8]
    } else if b < 32 {
        seq![92u8, 117u8, 48u8, 48u8, hex_digit(b / 16), hex_digit(b % 16)]
    } else {
        seq![b]
    }
}

/// A byte sequence, escaped for a JSON string.
pub open spec fn escape_bytes(s: Seq<u8>) -> Seq<u8>
    decreases s.len(),
{
    if s.len() == 0 {
        Seq::empty()
    } else {
        escape_byte(s[0]) + escape_bytes(s.drop_first())
    }
}

/// The bytes of `{"video_path":"`, up to and including the opening quote
/// of the path.
pub open spec fn message_prefix() -> Seq<u8> {
    seq![123u8, 34u8, 118u8, 105u8, 100u8, 101u8, 111u8, 95u8, 112u8, 97u8, 116u8, 104u8, 34u8, 58u8, 34u8]
}

/// The bytes of `"}`: the closing quote of the path and the closing brace.
pub open spec fn message_suffix() -> Seq<u8> {
    seq![34u8, 125u8]
}

/// The whole view-event message for a path given as its UTF-8 bytes.
pub open spec fn view_event_message(path: Seq<u8>) -> Seq<u8> {
    message_prefix() + escape_bytes(path) + message_suffix()
}

/// Escaping distributes over appending one byte.
proof fn lemma_escape_bytes_push(s: Seq<u8>, x: u8)
    ensures
        escape_bytes(s.push(x)) == escape_bytes(s) + escape_byte(x),
    decreases s.len(),
{
    if s.len() == 0 {
        assert(s.push(x)[0] == x);
        assert(s.push(x).drop_first() =~= Seq::<u8>::empty());
        assert(escape_bytes(Seq::<u8>::empty()) =~= Seq::<u8>::empty());
        assert(escape_bytes(s.push(x)) == escape_byte(x) + escape_bytes(Seq::<u8>::empty()));
        assert(escape_bytes(s.push(x)) =~= escape_bytes(s) + escape_byte(x));
    } else {
        assert(s.push(x)[0] == s[0]);
        assert(s.push(x).drop_first() =~= s.drop_first().push(x));
        assert(escape_bytes(s.push(x)) == escape_byte(s[0]) + escape_bytes(s.drop_first().push(x)));
        lemma_escape_bytes_push(s.drop_first(), x);
        assert(escape_bytes(s.push(x)) =~= escape_bytes(s) + escape_byte(x));
    }
}

/// Appends the escape of one byte to `out`.
fn push_escaped_byte(out: &mut Vec<u8>, b: u8)
    ensures
        final(out)@ == old(out)@ + escape_byte(b),
{
    if b == 34 {
        out.push(92);
        out.push(34);
    } else if b == 92 {
        out.push(92);
        out.push(92);
    } else if b == 8 {
        out.push(92);
        out.push(98);
    } else if b == 9 {
        out.push(92);
        out.push(116);
    } else if b == 10 {
        out.push(92);
        out.push(110);
    } else if b == 12 {
        out.push(92);
        out.push(102);
    } else if b == 13 {
        out.push(92);
        out.push(114);
    } else if b < 32 {
        out.push(92);
        out.push(117);
        out.push(48);
        out.push(48);
        let hi = b / 16;
        let lo = b % 16;
        out.push(if hi < 10 { 48 + hi } else { 87 + hi });
        out.push(if lo < 10 { 48 + lo } else { 87 + lo });
    } else {
        out.push(b);
    }
    proof {
        assert(final(out)@ =~= old(out)@ + escape_byte(b));
    }
}

/// Appends the escaped form of `s` to `out`.
fn append_escaped(out: &mut Vec<u8>, s: &Vec<u8>)
    ensures
        final(out)@ == old(out)@ + escape_bytes(s@),
{
    let n = s.len();
    let mut i: usize = 0;
    proof {
        assert(s@.take(0) =~= Seq::<u8>::empty());
        assert(out@ =~= old(out)@ + escape_bytes(s@.take(0)));
    }
    while i < n
        invariant
            0 <= i <= n,
            n == s@.len(),
            out@ == old(out)@ + escape_bytes(s@.take(i as int)),
        decreases n - i,
    {
        push_escaped_byte(out, s[i]);
        proof {
            lemma_escape_bytes_push(s@.take(i as int), s@[i as int]);
            assert(s@.take(i as int).push(s@[i as int]) =~= s@.take(i as int + 1));
            assert(out@ =~= old(out)@ + escape_bytes(s@.take(i as int + 1)));
        }
        i = i + 1;
    }
    proof {
        assert(s@.take(n as int) =~= s@);
    }
}

/// The message prefix as a vector.
fn prefix_bytes() -> (v: Vec<u8>)
    ensures
        v@ == message_prefix(),
{
    let mut v: Vec<u8> = Vec::new();
    v.push(123);
    v.push(34);
    v.push(118);
    v.push(105);
    v.push(100);
    v.push(101);
    v.push(111);
    v.push(95);
    v.push(112);
    v.push(97);
    v.push(116);
    v.push(104);
    v.push(34);
    v.push(58);
    v.push(34);
    proof {
        assert(v@ =~= message_prefix());
    }
    v
}

/// The view-event message for `path`: the body of the notification the
/// gateway posts to the history recorder.
pub fn view_event_body(path: &str) -> (r: Vec<u8>)
    ensures
        r@ == view_event_message(path.spec_bytes()),
{
    let mut out = prefix_bytes();
    let bytes = path.as_bytes_vec();
    append_escaped(&mut out, &bytes);
    out.push(34);
    out.push(125);
    proof {
        assert(out@ =~= view_event_message(path.spec_bytes()));
    }
    out
}

/// Whether `b` is an ASCII hexadecimal digit.
pub open spec fn is_hex_byte(b: u8) -> bool {
    (48 <= b && b <= 57) || (97 <= b && b <= 102) || (65 <= b && b <= 70)
}

/// The value of an ASCII hexadecimal digit.
pub open spec fn hex_val(b: u8) -> u8
    recommends
        is_hex_byte(b),
{
    if 48 <= b && b <= 57 {
        (b - 48) as u8
    } else if 97 <= b && b <= 102 {
        (b - 87) as u8
    } else {
        (b - 55) as u8
    }
}

/// The byte value written as `\u00XX` with hexadecimal digits `hi`, `lo`.
pub open spec fn hex_pair_val(hi: u8, lo: u8) -> int {
    16 * hex_val(hi) + hex_val(lo)
}

/// Reads a JSON string from the head of `s`, unescaping as it goes, with
/// `acc` the bytes decoded so far.  Yields the decoded bytes and what
/// follows the closing quote, or nothing when `s` is not a well-formed
/// remainder of a string: it ends before a closing quote, holds a raw
/// control byte, or holds an escape the encoder never writes.
pub open spec fn scan_string(s: Seq<u8>, acc: Seq<u8>) -> Option<(Seq<u8>, Seq<u8>)>
    decreases s.len(),
{
    if s.len() == 0 {
        None
    } else if s[0] == 34 {
        Some((acc, s.drop_first()))
    } else if s[0] == 92 {
        if s.len() < 2 {
            None
        } else {
            let e = s[1];
            if e == 34 {
                scan_string(s.skip(2), acc.push(34))
            } else if e == 92 {
                scan_string(s.skip(2), acc.push(92))
            } else if e == 98 {
                scan_string(s.skip(2), acc.push(8))
            } else if e == 116 {
                scan_string(s.skip(2), acc.push(9))
            } else if e == 110 {
                scan_string(s.skip(2), acc.push(10))
            } else if e == 102 {
                scan_string(s.skip(2), acc.push(12))
            } else if e == 114 {
                scan_string(s.skip(2), acc.push(13))
            } else if e == 117 {
                if s.len() < 6 {
                    None
                } else if s[2] == 48 && s[3] == 48 && is_hex_byte(s[4]) && is_hex_byte(s[5])
                    && hex_pair_val(s[4], s[5]) < 128 {
                    scan_string(s.skip(6), acc.push(hex_pair_val(s[4], s[5]) as u8))
                } else {
                    None
                }
            } else {
                None
            }
        }
    } else if s[0] < 32 {
        None
    } else {
        scan_string(s.drop_first(), acc.push(s[0]))
    }
}

/// The path carried by a view-event message, or nothing when `s` is not
/// one: it must be the prefix, a well-formed JSON string body, and the
/// closing brace, with nothing after it.
pub open spec fn parse_view_event_message(s: Seq<u8>) -> Option<Seq<u8>> {
    if s.len() < 15 || s.take(15) != message_prefix() {
        None
    } else {
        match scan_string(s.skip(15), Seq::empty()) {
            Some((path, rest)) => if rest == seq![125u8] {
                Some(path)
            } else {
                None
            },
            None => None,
        }
    }
}

/// An escaped hexadecimal digit reads back as the value it encodes.
proof fn lemma_hex_digit_round_trip(n: u8)
    requires
        n < 16,
    ensures
        is_hex_byte(hex_digit(n)),
        hex_val(hex_digit(n)) == n,
{
}

/// Scanning the escape of `p`, its closing quote and then `rest` decodes
/// exactly `p` and leaves exactly `rest`.
proof fn lemma_scan_escaped(p: Seq<u8>, rest: Seq<u8>, acc: Seq<u8>)
    ensures
        scan_string(escape_bytes(p) + seq![34u8] + rest, acc) == Some((acc + p, rest)),
    decreases p.len(),
{
    let s = escape_bytes(p) + seq![34u8] + rest;
    if p.len() == 0 {
        assert(s[0] == 34);
        assert(s.drop_first() =~= rest);
        assert(acc + p =~= acc);
    } else {
        let b = p[0];
        let p2 = p.drop_first();
        let eb = escape_byte(b);
        let tail = escape_bytes(p2) + seq![34u8] + rest;
        assert(escape_bytes(p) == eb + escape_bytes(p2));
        assert(s =~= eb + tail);
        lemma_scan_escaped(p2, rest, acc.push(b));
        assert(acc.push(b) + p2 =~= acc + p);
        if b == 34 || b == 92 || b == 8 || b == 9 || b == 10 || b == 12 || b == 13 {
            assert(s[0] == 92);
            assert(s.skip(2) =~= tail);
        } else if b < 32 {
            assert(s[0] == 92);
            assert(s[1] == 117);
            assert(s[2] == 48);
            assert(s[3] == 48);
            assert(s[4] == hex_digit(b / 16));
            assert(s[5] == hex_digit(b % 16));
            lemma_hex_digit_round_trip(b / 16);
            lemma_hex_digit_round_trip(b % 16);
            assert(16 * (b / 16) + (b % 16) == b) by (bit_vector);
            assert(hex_pair_val(s[4], s[5]) == b);
            assert(s.skip(6) =~= tail);
        } else {
            assert(s[0] == b);
            assert(s.drop_first() =~= tail);
        }
    }
}

/// Encoding and parsing compose to the identity: the parser reads back
/// from a view-event message exactly the path the encoder was given.
pub proof fn lemma_view_event_round_trip(path: Seq<u8>)
    ensures
        parse_view_event_message(view_event_message(path)) == Some(path),
{
    let m = view_event_message(path);
    assert(m.len() >= 17);
    assert(m.take(15) =~= message_prefix());
    assert(m.skip(15) =~= escape_bytes(path) + seq![34u8] + seq![125u8]);
    lemma_scan_escaped(path, seq![125u8], Seq::empty());
    assert(Seq::<u8>::empty() + path =~= path);
}

/// The value of one ASCII hexadecimal digit, or nothing for other bytes.
fn hex_nibble(b: u8) -> (r: Option<u8>)
    ensures
        match r {
            Some(v) => is_hex_byte(b) && v == hex_val(b),
            None => !is_hex_byte(b),
        },
{
    if 48 <= b && b <= 57 {
        Some(b - 48)
    } else if 97 <= b && b <= 102 {
        Some(b - 87)
    } else if 65 <= b && b <= 70 {
        Some(b - 55)
    } else {
        None
    }
}

/// Parses a view-event message, yielding the storage path it names as
/// UTF-8 bytes: exactly [`parse_view_event_message`] of the input.
pub fn parse_view_event(body: &Vec<u8>) -> (r: Option<Vec<u8>>)
    ensures
        match r {
            Some(p) => parse_view_event_message(body@) == Some(p@),
            None => parse_view_event_message(body@) is None,
        },
{
    let n = body.len();
    if n < 15 {
        return None;
    }
    let prefix = prefix_bytes();
    let mut k: usize = 0;
    while k < 15
        invariant
            0 <= k <= 15,
            15 <= n == body@.len(),
            prefix@ == message_prefix(),
            forall|j: int| 0 <= j < k ==> body@[j] == message_prefix()[j],
        decreases 15 - k,
    {
        if body[k] != prefix[k] {
            proof {
                assert(body@.take(15)[k as int] == body@[k as int]);
            }
            return None;
        }
        k = k + 1;
    }
    proof {
        assert(body@.take(15) =~= message_prefix());
    }
    let mut out: Vec<u8> = Vec::new();
    let mut i: usize = 15;
    while i < n
        invariant
            15 <= i <= n,
            n == body@.len(),
            body@.take(15) == message_prefix(),
            scan_string(body@.skip(15), Seq::empty()) == scan_string(body@.skip(i as int), out@),
        decreases n - i,
    {
        let ghost tail = body@.skip(i as int);
        proof {
            assert(tail.len() == n - i);
            assert(tail[0] == body@[i as int]);
        }
        let b = body[i];
        if b == 34 {
            proof {
                assert(tail.drop_first() =~= body@.skip(i as int + 1));
            }
            if n - i == 2 && body[i + 1] == 125 {
                proof {
                    assert(body@.skip(i as int + 1) =~= seq![125u8]);
                }
                return Some(out);
            } else {
                proof {
                    if n - i == 2 {
                        assert(body@.skip(i as int + 1)[0] == body@[i as int + 1]);
                        assert(seq![125u8][0] == 125);
                    }
                    assert(body@.skip(i as int + 1) != seq![125u8]);
                }
                return None;
            }
        } else if b == 92 {
            if i + 1 == n {
                return None;
            }
            let e = body[i + 1];
            proof {
                assert(tail[1] == body@[i as int + 1]);
                assert(tail.skip(2) =~= body@.skip(i as int + 2));
            }
            if e == 34 {
                out.push(34);
                i = i + 2;
            } else if e == 92 {
                out.push(92);
                i = i + 2;
            } else if e == 98 {
                out.push(8);
                i = i + 2;
            } else if e == 116 {
                out.push(9);
                i = i + 2;
            } else if e == 110 {
                out.push(10);
                i = i + 2;
            } else if e == 102 {
                out.push(12);
                i = i + 2;
            } else if e == 114 {
                out.push(13);
                i = i + 2;
            } else if e == 117 {
                if n - i < 6 {
                    return None;
                }
                let d2 = body[i + 2];
                let d3 = body[i + 3];
                let d4 = body[i + 4];
                let d5 = body[i + 5];
                proof {
                    assert(tail[2] == body@[i as int + 2]);
                    assert(tail[3] == body@[i as int + 3]);
                    assert(tail[4] == body@[i as int + 4]);
                    assert(tail[5] == body@[i as int + 5]);
                    assert(tail.skip(6) =~= body@.skip(i as int + 6));
                }
                if d2 != 48 || d3 != 48 {
                    return None;
                }
                let hi = match hex_nibble(d4) {
                    Some(v) => v,
                    None => {
                        return None;
                    },
                };
                let lo = match hex_nibble(d5) {
                    Some(v) => v,
                    None => {
                        return None;
                    },
                };
                if hi >= 8 {
                    return None;
                }
                out.push(16 * hi + lo);
                i = i + 6;
            } else {
                return None;
            }
        } else if b < 32 {
            return None;
        } else {
            proof {
                assert(tail.drop_first() =~= body@.skip(i as int + 1));
            }
            out.push(b);
            i = i + 1;
        }
    }
    proof {
        assert(body@.skip(n as int) =~= Seq::<u8>::empty());
    }
    None
}

} // verus!
