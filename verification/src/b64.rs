//! Verified base64url encoding, unpadded, as token segments use it.

use vstd::prelude::*;

verus! {

/// The sixty-four URL-safe alphabet characters, by value.
pub open spec fn b64_char(i: int) -> char {
    "ABCDEFGHIJKLMNOPQRSTUVWXYZabcdefghijklmnopqrstuvwxyz0123456789-_"@[i]
}

/// The alphabet character for a value below sixty-four.
fn b64_char_at(i: u8) -> (c: char)
    requires
        i < 64,
    ensures
        c == b64_char(i as int),
{
    let alphabet = "ABCDEFGHIJKLMNOPQRSTUVWXYZabcdefghijklmnopqrstuvwxyz0123456789-_";
    proof {
        reveal_strlit("ABCDEFGHIJKLMNOPQRSTUVWXYZabcdefghijklmnopqrstuvwxyz0123456789-_");
    }
    alphabet.get_char(i as usize)
}

/// The characters encoding one final group of one, two or three bytes:
/// two, three or four characters, with no padding.
pub open spec fn b64_group(b: Seq<u8>) -> Seq<char> {
    if b.len() == 1 {
        seq![b64_char((b[0] >> 2) as int), b64_char(((b[0] & 3) << 4) as int)]
    } else if b.len() == 2 {
        seq![
            b64_char((b[0] >> 2) as int),
            b64_char((((b[0] & 3) << 4) | (b[1] >> 4)) as int),
            b64_char(((b[1] & 15) << 2) as int),
        ]
    } else {
        seq![
            b64_char((b[0] >> 2) as int),
            b64_char((((b[0] & 3) << 4) | (b[1] >> 4)) as int),
            b64_char((((b[1] & 15) << 2) | (b[2] >> 6)) as int),
            b64_char((b[2] & 63) as int),
        ]
    }
}

/// The unpadded base64url encoding of a byte sequence.
pub open spec fn b64url_of(b: Seq<u8>) -> Seq<char>
    decreases b.len(),
{
    if b.len() == 0 {
        Seq::empty()
    } else if b.len() <= 3 {
        b64_group(b)
    } else {
        b64_group(b.subrange(0, 3)) + b64url_of(b.skip(3))
    }
}

/// Encodes a byte slice as unpadded base64url text.
pub fn base64url(bytes: &[u8]) -> (r: String)
    ensures
        r@ == b64url_of(bytes@),
{
    let ghost all = bytes@;
    let mut out = String::new();
    let n = bytes.len();
    let mut i: usize = 0;
    proof {
        assert(all.skip(0) =~= all);
        assert(out@ + b64url_of(all) =~= b64url_of(all));
    }
    while n - i > 3
        invariant
            all == bytes@,
            n == all.len(),
            0 <= i <= n,
            b64url_of(all) == out@ + b64url_of(all.skip(i as int)),
        decreases n - i,
    {
        let b0 = bytes[i];
        let b1 = bytes[i + 1];
        let b2 = bytes[i + 2];
        proof {
            assert(b0 >> 2 < 64 && ((b0 & 3) << 4) | (b1 >> 4) < 64 && ((b1 & 15) << 2) | (b2
                >> 6) < 64 && b2 & 63 < 64) by (bit_vector);
        }
        let ghost base = out@;
        push_b64(&mut out, b0 >> 2);
        push_b64(&mut out, ((b0 & 3) << 4) | (b1 >> 4));
        push_b64(&mut out, ((b1 & 15) << 2) | (b2 >> 6));
        push_b64(&mut out, b2 & 63);
        proof {
            let rem = all.skip(i as int);
            assert(rem.len() == n - i);
            assert(rem.subrange(0, 3)[0] == b0 && rem.subrange(0, 3)[1] == b1 && rem.subrange(
                0,
                3,
            )[2] == b2);
            assert(out@ =~= base + b64_group(rem.subrange(0, 3)));
            assert(rem.skip(3) =~= all.skip(i as int + 3));
        }
        i += 3;
    }
    let ghost base = out@;
    let ghost rem = all.skip(i as int);
    proof {
        assert(rem.len() == n - i);
    }
    if n - i == 1 {
        let b0 = bytes[i];
        proof {
            assert(b0 >> 2 < 64 && (b0 & 3) << 4 < 64) by (bit_vector);
            assert(rem[0] == b0);
        }
        push_b64(&mut out, b0 >> 2);
        push_b64(&mut out, (b0 & 3) << 4);
        assert(out@ =~= base + b64_group(rem));
    } else if n - i == 2 {
        let b0 = bytes[i];
        let b1 = bytes[i + 1];
        proof {
            assert(b0 >> 2 < 64 && ((b0 & 3) << 4) | (b1 >> 4) < 64 && (b1 & 15) << 2
                < 64) by (bit_vector);
            assert(rem[0] == b0 && rem[1] == b1);
        }
        push_b64(&mut out, b0 >> 2);
        push_b64(&mut out, ((b0 & 3) << 4) | (b1 >> 4));
        push_b64(&mut out, (b1 & 15) << 2);
        assert(out@ =~= base + b64_group(rem));
    } else if n - i == 3 {
        let b0 = bytes[i];
        let b1 = bytes[i + 1];
        let b2 = bytes[i + 2];
        proof {
            assert(b0 >> 2 < 64 && ((b0 & 3) << 4) | (b1 >> 4) < 64 && ((b1 & 15) << 2) | (b2
                >> 6) < 64 && b2 & 63 < 64) by (bit_vector);
            assert(rem[0] == b0 && rem[1] == b1 && rem[2] == b2);
        }
        push_b64(&mut out, b0 >> 2);
        push_b64(&mut out, ((b0 & 3) << 4) | (b1 >> 4));
        push_b64(&mut out, ((b1 & 15) << 2) | (b2 >> 6));
        push_b64(&mut out, b2 & 63);
        assert(out@ =~= base + b64_group(rem));
    } else {
        assert(rem =~= Seq::<u8>::empty());
    }
    assert(out@ =~= b64url_of(all));
    out
}

/// Appends the alphabet character for a six-bit value.
fn push_b64(out: &mut String, i: u8)
    requires
        i < 64,
    ensures
        final(out)@ == old(out)@.push(b64_char(i as int)),
{
    let c = b64_char_at(i);
    crate::jsonenc::push_char(out, c);
}

} // verus!
