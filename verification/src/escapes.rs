//! Percent-escapes in the text of a URL: whether the text, with every escape
//! replaced by the byte that it writes, is UTF-8.

use vstd::prelude::*;
use vstd::utf8::{encode_utf8, valid_utf8};

verus! {

/// The value of a hexadecimal digit, upper or lower case.
pub open spec fn hex_value(b: u8) -> Option<u8> {
    if 0x30 <= b <= 0x39 {
        Some((b - 0x30) as u8)
    } else if 0x41 <= b <= 0x46 {
        Some((b - 0x41 + 10) as u8)
    } else if 0x61 <= b <= 0x66 {
        Some((b - 0x61 + 10) as u8)
    } else {
        None
    }
}

/// `byte` before `rest`, where there is a rest.
pub open spec fn before(byte: u8, rest: Option<Seq<u8>>) -> Option<Seq<u8>> {
    match rest {
        Some(r) => Some(seq![byte] + r),
        None => None,
    }
}

/// The bytes with every escape, a `%` and the two hexadecimal digits behind
/// it, replaced by the byte that the digits write. `None` where a `%` does
/// not have two hexadecimal digits behind it.
pub open spec fn unescaped(bytes: Seq<u8>) -> Option<Seq<u8>>
    decreases bytes.len(),
{
    if bytes.len() == 0 {
        Some(Seq::empty())
    } else if bytes[0] != 0x25 {
        before(bytes[0], unescaped(bytes.skip(1)))
    } else if bytes.len() >= 3 && hex_value(bytes[1]) is Some && hex_value(bytes[2]) is Some {
        before(
            (16 * hex_value(bytes[1])->Some_0 + hex_value(bytes[2])->Some_0) as u8,
            unescaped(bytes.skip(3)),
        )
    } else {
        None
    }
}

/// Whether the text, with every escape replaced by the byte that it writes,
/// is UTF-8. A `%` without two hexadecimal digits behind it is no escape, and
/// a text that has one does not decode.
pub open spec fn decodes(text: Seq<char>) -> bool {
    match unescaped(encode_utf8(text)) {
        Some(bytes) => valid_utf8(bytes),
        None => false,
    }
}

/// `prefix` before `rest`, where there is a rest.
pub open spec fn joined(prefix: Seq<u8>, rest: Option<Seq<u8>>) -> Option<Seq<u8>> {
    match rest {
        Some(r) => Some(prefix + r),
        None => None,
    }
}

/// `std::str::from_utf8`, kept only for whether it succeeds: it does where
/// the bytes are UTF-8, and only there.
#[verifier::external_body]
fn is_utf8(bytes: &[u8]) -> (ok: bool)
    ensures
        ok == valid_utf8(bytes@),
{
    std::str::from_utf8(bytes).is_ok()
}

/// The value of a hexadecimal digit.
fn hex_digit(b: u8) -> (r: Option<u8>)
    ensures
        r == hex_value(b),
        r matches Some(v) ==> v < 16,
{
    if 0x30 <= b && b <= 0x39 {
        Some(b - 0x30)
    } else if 0x41 <= b && b <= 0x46 {
        Some(b - 0x41 + 10)
    } else if 0x61 <= b && b <= 0x66 {
        Some(b - 0x61 + 10)
    } else {
        None
    }
}

/// Whether the text, with every escape replaced by the byte that it writes,
/// is UTF-8.
pub fn decodes_as_utf8(text: &str) -> (ok: bool)
    ensures
        ok == decodes(text@),
{
    let bytes = text.as_bytes();
    let ghost all = bytes@;
    let n = bytes.len();
    let mut out: Vec<u8> = Vec::new();
    let mut i: usize = 0;
    proof {
        assert(all.skip(0) =~= all);
        if unescaped(all) is Some {
            assert(out@ + unescaped(all)->Some_0 =~= unescaped(all)->Some_0);
        }
    }
    while i < n
        invariant
            0 <= i <= n,
            n == bytes@.len(),
            all == bytes@,
            all == encode_utf8(text@),
            unescaped(all) == joined(out@, unescaped(all.skip(i as int))),
        decreases n - i,
    {
        let ghost rest = all.skip(i as int);
        let b = bytes[i];
        assert(rest[0] == b);
        if b != 0x25 {
            proof {
                assert(rest.skip(1) =~= all.skip(i + 1));
                let tail = unescaped(all.skip(i + 1));
                if tail is Some {
                    assert(out@ + (seq![b] + tail->Some_0) =~= out@.push(b) + tail->Some_0);
                }
            }
            out.push(b);
            i += 1;
        } else {
            if n - i < 3 {
                return false;
            }
            let high = match hex_digit(bytes[i + 1]) {
                Some(v) => v,
                None => {
                    assert(rest[1] == bytes@[i + 1]);
                    return false;
                },
            };
            let low = match hex_digit(bytes[i + 2]) {
                Some(v) => v,
                None => {
                    assert(rest[2] == bytes@[i + 2]);
                    return false;
                },
            };
            let byte = high * 16 + low;
            proof {
                assert(rest[1] == bytes@[i + 1] && rest[2] == bytes@[i + 2]);
                assert(rest.skip(3) =~= all.skip(i + 3));
                let tail = unescaped(all.skip(i + 3));
                if tail is Some {
                    assert(out@ + (seq![byte] + tail->Some_0) =~= out@.push(byte) + tail->Some_0);
                }
            }
            out.push(byte);
            i += 3;
        }
    }
    proof {
        assert(all.skip(n as int) =~= Seq::<u8>::empty());
        assert(out@ + Seq::<u8>::empty() =~= out@);
    }
    is_utf8(out.as_slice())
}

} // verus!
