//! Wire-level framing: the big-endian length field and the optional `~`
//! delimiters around the base64 payload.

use vstd::prelude::*;

verus! {

/// The delimiter that may wrap the base64 payload, once on each side.
pub const DELIMITER: u8 = 126;

/// The value of a 4-byte big-endian unsigned length field.
pub open spec fn be32(b: Seq<u8>) -> int
    recommends
        b.len() == 4,
{
    (b[0] as int) * 0x1000000 + (b[1] as int) * 0x10000 + (b[2] as int) * 0x100 + (b[3] as int)
}

/// Reads a big-endian 32-bit length out of its four bytes.
pub fn be32_value(b0: u8, b1: u8, b2: u8, b3: u8) -> (n: u32)
    ensures
        n as int == be32(seq![b0, b1, b2, b3]),
{
    (b0 as u32) * 0x1000000 + (b1 as u32) * 0x10000 + (b2 as u32) * 0x100 + (b3 as u32)
}

/// Writes a length as the four bytes of its big-endian 32-bit encoding.
pub fn be32_bytes(n: u32) -> (b: Vec<u8>)
    ensures
        b@.len() == 4,
        be32(b@) == n as int,
{
    let b0: u8 = (n >> 24u32) as u8;
    let b1: u8 = ((n >> 16u32) & 0xff) as u8;
    let b2: u8 = ((n >> 8u32) & 0xff) as u8;
    let b3: u8 = (n & 0xff) as u8;
    proof {
        assert(n >> 24u32 < 256 && (n >> 16u32) & 0xff < 256 && (n >> 8u32) & 0xff < 256 && n
            & 0xff < 256) by (bit_vector);
        assert((n >> 24u32) as int * 0x1000000 + ((n >> 16u32) & 0xff) as int * 0x10000 + ((n
            >> 8u32) & 0xff) as int * 0x100 + (n & 0xff) as int == n as int) by (bit_vector);
    }
    let mut b: Vec<u8> = Vec::new();
    b.push(b0);
    b.push(b1);
    b.push(b2);
    b.push(b3);
    proof {
        assert(b@ =~= seq![b0, b1, b2, b3]);
    }
    b
}

/// The payload after stripping at most one leading and one trailing
/// delimiter: strip a single leading `~` if present, then a single
/// trailing `~` if present. Further delimiters stay.
pub open spec fn stripped(s: Seq<u8>) -> Seq<u8> {
    let t = if s.len() > 0 && s[0] == DELIMITER {
        s.subrange(1, s.len() as int)
    } else {
        s
    };
    if t.len() > 0 && t[t.len() - 1] == DELIMITER {
        t.subrange(0, t.len() - 1)
    } else {
        t
    }
}

/// The bytes of `v` from `start` (inclusive) to `end` (exclusive).
pub fn subvec(v: &Vec<u8>, start: usize, end: usize) -> (r: Vec<u8>)
    requires
        start <= end <= v@.len(),
    ensures
        r@ == v@.subrange(start as int, end as int),
{
    let mut r: Vec<u8> = Vec::new();
    let mut i: usize = start;
    while i < end
        invariant
            start <= i <= end <= v@.len(),
            r@ == v@.subrange(start as int, i as int),
        decreases end - i,
    {
        r.push(v[i]);
        proof {
            assert(r@ =~= v@.subrange(start as int, i + 1));
        }
        i = i + 1;
    }
    r
}

/// Strips at most one delimiter from each end of the payload.
pub fn strip_delimiters(v: &Vec<u8>) -> (r: Vec<u8>)
    ensures
        r@ == stripped(v@),
{
    let len = v.len();
    let start: usize = if len > 0 && v[0] == DELIMITER {
        1
    } else {
        0
    };
    let end: usize = if len > start && v[len - 1] == DELIMITER {
        len - 1
    } else {
        len
    };
    let r = subvec(v, start, end);
    proof {
        assert(r@ =~= stripped(v@));
    }
    r
}

/// Wraps a payload in one leading and one trailing delimiter.
pub fn wrap_delimiters(v: &Vec<u8>) -> (r: Vec<u8>)
    ensures
        r@ == seq![DELIMITER] + v@ + seq![DELIMITER],
{
    let mut r: Vec<u8> = Vec::new();
    r.push(DELIMITER);
    let mut i: usize = 0;
    while i < v.len()
        invariant
            i <= v@.len(),
            r@ == seq![DELIMITER] + v@.subrange(0, i as int),
        decreases v@.len() - i,
    {
        r.push(v[i]);
        proof {
            assert(r@ =~= seq![DELIMITER] + v@.subrange(0, i + 1));
        }
        i = i + 1;
    }
    r.push(DELIMITER);
    proof {
        assert(v@.subrange(0, v@.len() as int) =~= v@);
        assert(r@ =~= seq![DELIMITER] + v@ + seq![DELIMITER]);
    }
    r
}

/// Stripping undoes wrapping: a payload wrapped in one delimiter on each
/// side strips back to exactly itself, whatever it holds.
pub proof fn lemma_strip_wrapped(s: Seq<u8>)
    ensures
        stripped(seq![DELIMITER] + s + seq![DELIMITER]) == s,
{
    let w = seq![DELIMITER] + s + seq![DELIMITER];
    let t = w.subrange(1, w.len() as int);
    assert(t =~= s + seq![DELIMITER]);
    assert(t.subrange(0, t.len() - 1) =~= s);
}

} // verus!
