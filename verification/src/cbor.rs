//! Byte-level building blocks for the wire encoding.
//!
//! Every frame on the wire is a concatenation of CBOR items in the
//! canonical shortest form: definite-length text strings and small
//! integers.  The functions here append single items to a growing byte
//! vector and are proved to produce exactly the bytes their spec
//! functions describe.

use vstd::prelude::*;
use vstd::string::*;

verus! {

/// The canonical (shortest form) CBOR header for a text string of
/// `len` bytes: major type 3 with the length in the fewest bytes.
pub open spec fn cbor_text_header(len: nat) -> Seq<u8> {
    if len < 24 {
        seq![(0x60 + len) as u8]
    } else if len < 0x100 {
        seq![0x78u8, len as u8]
    } else if len < 0x10000 {
        seq![0x79u8, (len / 0x100) as u8, (len % 0x100) as u8]
    } else if len < 0x100000000 {
        seq![
            0x7au8,
            (len / 0x1000000) as u8,
            ((len / 0x10000) % 0x100) as u8,
            ((len / 0x100) % 0x100) as u8,
            (len % 0x100) as u8,
        ]
    } else {
        seq![
            0x7bu8,
            (len / 0x100000000000000) as u8,
            ((len / 0x1000000000000) % 0x100) as u8,
            ((len / 0x10000000000) % 0x100) as u8,
            ((len / 0x100000000) % 0x100) as u8,
            ((len / 0x1000000) % 0x100) as u8,
            ((len / 0x10000) % 0x100) as u8,
            ((len / 0x100) % 0x100) as u8,
            (len % 0x100) as u8,
        ]
    }
}

/// A whole CBOR text item: header followed by the UTF-8 bytes.
pub open spec fn cbor_text(s: &str) -> Seq<u8> {
    cbor_text_header(s.spec_bytes().len()) + s.spec_bytes()
}

/// The decimal digits of `n`, most significant first, as ASCII bytes.
pub open spec fn dec_of(n: nat) -> Seq<u8>
    decreases n,
{
    if n < 10 {
        seq![(0x30 + n) as u8]
    } else {
        dec_of(n / 10).push((0x30 + n % 10) as u8)
    }
}

/// Append the canonical CBOR text header for a string of `len` bytes.
pub fn push_text_header(out: &mut Vec<u8>, len: usize)
    ensures
        final(out)@ == old(out)@ + cbor_text_header(len as nat),
{
    let n: u64 = len as u64;
    if n < 24 {
        out.push(0x60 + n as u8);
    } else if n < 0x100 {
        out.push(0x78);
        out.push(n as u8);
    } else if n < 0x10000 {
        out.push(0x79);
        out.push((n / 0x100) as u8);
        out.push((n % 0x100) as u8);
    } else if n < 0x100000000 {
        out.push(0x7a);
        out.push((n / 0x1000000) as u8);
        out.push(((n / 0x10000) % 0x100) as u8);
        out.push(((n / 0x100) % 0x100) as u8);
        out.push((n % 0x100) as u8);
    } else {
        out.push(0x7b);
        out.push((n / 0x100000000000000) as u8);
        out.push(((n / 0x1000000000000) % 0x100) as u8);
        out.push(((n / 0x10000000000) % 0x100) as u8);
        out.push(((n / 0x100000000) % 0x100) as u8);
        out.push(((n / 0x1000000) % 0x100) as u8);
        out.push(((n / 0x10000) % 0x100) as u8);
        out.push(((n / 0x100) % 0x100) as u8);
        out.push((n % 0x100) as u8);
    }
    assert(out@ =~= old(out)@ + cbor_text_header(len as nat));
}

/// Append all bytes of `src` to `out`.
pub fn push_bytes(out: &mut Vec<u8>, src: &Vec<u8>)
    ensures
        final(out)@ == old(out)@ + src@,
{
    let mut i: usize = 0;
    while i < src.len()
        invariant
            i <= src@.len(),
            out@ == old(out)@ + src@.take(i as int),
        decreases src@.len() - i,
    {
        out.push(src[i]);
        i = i + 1;
        assert(out@ =~= old(out)@ + src@.take(i as int));
    }
    assert(out@ =~= old(out)@ + src@);
}

/// Append the UTF-8 bytes of `s` to `out`.
pub fn push_str_bytes(out: &mut Vec<u8>, s: &str)
    ensures
        final(out)@ == old(out)@ + s.spec_bytes(),
{
    let b: &[u8] = s.as_bytes();
    let mut i: usize = 0;
    while i < b.len()
        invariant
            i <= b@.len(),
            b@ == s.spec_bytes(),
            out@ == old(out)@ + b@.take(i as int),
        decreases b@.len() - i,
    {
        out.push(*vstd::slice::slice_index_get(b, i));
        i = i + 1;
        assert(out@ =~= old(out)@ + b@.take(i as int));
    }
    assert(out@ =~= old(out)@ + s.spec_bytes());
}

/// Append a whole CBOR text item holding `s`.
pub fn push_text(out: &mut Vec<u8>, s: &str)
    ensures
        final(out)@ == old(out)@ + cbor_text(s),
{
    let b: &[u8] = s.as_bytes();
    push_text_header(out, b.len());
    push_str_bytes(out, s);
    assert(out@ =~= old(out)@ + cbor_text(s));
}

/// Append the decimal digits of `n` as ASCII bytes.
pub fn push_dec(out: &mut Vec<u8>, n: u64)
    ensures
        final(out)@ == old(out)@ + dec_of(n as nat),
    decreases n,
{
    if n < 10 {
        out.push(0x30 + n as u8);
        assert(out@ =~= old(out)@ + dec_of(n as nat));
    } else {
        assert(n / 10 < n) by (nonlinear_arith)
            requires
                n >= 10,
        ;
        push_dec(out, n / 10);
        out.push(0x30 + (n % 10) as u8);
        assert(out@ =~= old(out)@ + dec_of(n as nat));
    }
}

} // verus!
