//! Byte-level model of the C strings that cross the host boundary.
//!
//! Every string handed to the host travels as a NUL-terminated buffer. The
//! functions here build and reason about the exact byte image of such a
//! buffer: the payload bytes followed by one terminator byte.

use vstd::prelude::*;

verus! {

/// True when `s` holds no NUL byte, so it can become the payload of a
/// C string without truncation.
pub open spec fn no_nul(s: Seq<u8>) -> bool {
    forall|i: int| 0 <= i < s.len() ==> s[i] != 0u8
}

/// The byte image of the NUL-terminated buffer that carries payload `s`.
pub open spec fn c_str_image(s: Seq<u8>) -> Seq<u8> {
    s + seq![0u8]
}

/// Index of the first NUL byte of `b`, or `b.len()` when there is none:
/// how far a reader of the buffer gets before the terminator.
pub open spec fn first_nul(b: Seq<u8>) -> int
    decreases b.len(),
{
    if b.len() == 0 {
        0
    } else if b[0] == 0u8 {
        0
    } else {
        1 + first_nul(b.drop_first())
    }
}

/// What a reader of a NUL-terminated buffer decodes: the bytes before the
/// first NUL.
pub open spec fn c_str_decode(b: Seq<u8>) -> Seq<u8> {
    b.take(first_nul(b))
}

proof fn lemma_first_nul_of_image(s: Seq<u8>)
    requires
        no_nul(s),
    ensures
        first_nul(c_str_image(s)) == s.len(),
    decreases s.len(),
{
    let b = c_str_image(s);
    if s.len() == 0 {
        assert(b[0] == 0u8);
    } else {
        assert(b[0] == s[0]);
        assert(no_nul(s.drop_first()));
        lemma_first_nul_of_image(s.drop_first());
        assert(b.drop_first() =~= c_str_image(s.drop_first()));
    }
}

/// A payload free of NUL bytes survives the trip through a NUL-terminated
/// buffer unchanged: decoding the image gives back exactly the payload.
pub proof fn lemma_c_str_round_trip(s: Seq<u8>)
    requires
        no_nul(s),
    ensures
        c_str_decode(c_str_image(s)) == s,
{
    lemma_first_nul_of_image(s);
    assert(c_str_image(s).take(s.len() as int) =~= s);
}

/// True when `v` holds a NUL byte somewhere.
pub fn contains_nul(v: &Vec<u8>) -> (r: bool)
    ensures
        r == !no_nul(v@),
{
    let mut i: usize = 0;
    while i < v.len()
        invariant
            i <= v@.len(),
            forall|j: int| 0 <= j < i ==> v@[j] != 0u8,
        decreases v@.len() - i,
    {
        if v[i] == 0u8 {
            return true;
        }
        i += 1;
    }
    false
}

/// A fresh copy of the bytes of `v`.
pub fn copy_bytes(v: &Vec<u8>) -> (r: Vec<u8>)
    ensures
        r@ == v@,
{
    let mut r: Vec<u8> = Vec::new();
    let mut i: usize = 0;
    while i < v.len()
        invariant
            i <= v@.len(),
            r@ == v@.take(i as int),
        decreases v@.len() - i,
    {
        r.push(v[i]);
        assert(r@ =~= v@.take(i + 1 as int));
        i += 1;
    }
    assert(v@.take(v@.len() as int) =~= v@);
    r
}

/// The buffer image handed to the host allocator for payload `value`:
/// the payload bytes plus one terminator, so exactly `value.len() + 1`
/// bytes in all.
pub fn host_string_buffer(value: &Vec<u8>) -> (r: Vec<u8>)
    requires
        no_nul(value@),
    ensures
        r@ == c_str_image(value@),
        r@.len() == value@.len() + 1,
{
    let mut r = copy_bytes(value);
    r.push(0u8);
    assert(r@ =~= c_str_image(value@));
    r
}

} // verus!
