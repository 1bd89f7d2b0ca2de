//! Fixed-size, null-terminated and length-prefixed strings.

use vstd::prelude::*;
use vstd::string::StringSliceAdditionalSpecFns;
use vstd::utf8::{decode_utf8, valid_utf8};

use crate::common::{read_exact, read_u8, MAX_BSTRING};
use crate::error::{decode_failed, limit_exceeded, TesError};

verus! {

/// Decodes UTF-8: calls std's `str::from_utf8`.
///
/// The contract claims what std documents: the call succeeds exactly when the bytes are valid
/// UTF-8, and the string then holds the characters those bytes encode.
#[verifier::external_body]
pub(crate) fn str_from_utf8(bytes: &[u8]) -> (r: Option<&str>)
    ensures
        r is Some <==> valid_utf8(bytes@),
        r matches Some(s) ==> s@ == decode_utf8(bytes@),
{
    std::str::from_utf8(bytes).ok()
}

/// No byte of `s` is zero.
pub open spec fn no_nul(s: Seq<u8>) -> bool {
    forall|i: int| 0 <= i < s.len() ==> s[i] != 0
}

/// The bytes of `s` before its first zero byte (all of `s` if it has none).
pub open spec fn until_nul(s: Seq<u8>) -> Seq<u8>
    decreases s.len(),
{
    if s.len() == 0 || s[0] == 0 {
        Seq::empty()
    } else {
        seq![s[0]] + until_nul(s.drop_first())
    }
}

/// `s` is a null-terminated string: it ends in its only zero byte.
pub open spec fn is_zstring(s: Seq<u8>) -> bool {
    s.len() > 0 && s.last() == 0 && no_nul(s.drop_last())
}

/// `n` zero bytes.
pub open spec fn zeros(n: nat) -> Seq<u8> {
    Seq::new(n, |i: int| 0u8)
}

/// The prefix before the first zero byte is the prefix of any length `k` that has no zero and is
/// followed by a zero or by the end.
pub proof fn lemma_until_nul(s: Seq<u8>, k: int)
    requires
        0 <= k <= s.len(),
        no_nul(s.take(k)),
        k == s.len() || s[k] == 0,
    ensures
        until_nul(s) =~= s.take(k),
    decreases k,
{
    if k > 0 {
        assert(s.take(k)[0] == s[0]);
        assert(s.drop_first().take(k - 1) =~= s.take(k).drop_first());
        lemma_until_nul(s.drop_first(), k - 1);
    } else if s.len() > 0 {
        assert(s[0] == 0);
    }
}

/// Scans for the first zero byte.
fn nul_position(buf: &[u8]) -> (k: usize)
    ensures
        k <= buf@.len(),
        until_nul(buf@) == buf@.take(k as int),
        k < buf@.len() ==> buf@[k as int] == 0,
{
    let mut k: usize = 0;
    while k < buf.len() && buf[k] != 0
        invariant
            k <= buf@.len(),
            no_nul(buf@.take(k as int)),
        decreases buf@.len() - k,
    {
        assert(buf@.take(k + 1) =~= buf@.take(k as int).push(buf@[k as int]));
        k = k + 1;
    }
    proof {
        lemma_until_nul(buf@, k as int);
    }
    k
}

/// Decodes a null-padded string: the bytes before the first zero, as UTF-8.
pub fn read_string_bytes(buf: &[u8]) -> (r: Result<String, TesError>)
    ensures
        r is Ok <==> valid_utf8(until_nul(buf@)),
        r matches Ok(s) ==> s@ == decode_utf8(until_nul(buf@)),
        r matches Err(e) ==> e is DecodeFailed,
{
    let k = nul_position(buf);
    let chars = vstd::slice::slice_subrange(buf, 0, k);
    match str_from_utf8(chars) {
        Some(s) => Ok(s.to_owned()),
        None => Err(decode_failed("Failed to decode string")),
    }
}

/// Reads a null-padded string of `N` bytes.
pub fn read_string<'a, const N: usize>(f: &mut &'a [u8]) -> (r: Result<String, TesError>)
    ensures
        N <= old(f)@.len() ==> final(f)@ == old(f)@.subrange(N as int, old(f)@.len() as int),
        r is Ok <==> N <= old(f)@.len() && valid_utf8(until_nul(old(f)@.take(N as int))),
        r matches Ok(s) ==> s@ == decode_utf8(until_nul(old(f)@.take(N as int))),
        r matches Err(e) ==> (e is UnexpectedEof <==> N > old(f)@.len()),
{
    read_string_dyn(N, f)
}

/// Reads a null-padded string of `size` bytes.
pub fn read_string_dyn<'a>(size: usize, f: &mut &'a [u8]) -> (r: Result<String, TesError>)
    ensures
        size <= old(f)@.len() ==> final(f)@ == old(f)@.subrange(size as int, old(f)@.len() as int),
        r is Ok <==> size <= old(f)@.len() && valid_utf8(until_nul(old(f)@.take(size as int))),
        r matches Ok(s) ==> s@ == decode_utf8(until_nul(old(f)@.take(size as int))),
        r matches Err(e) ==> (e is UnexpectedEof <==> size > old(f)@.len()),
{
    let buf = read_exact(f, size)?;
    read_string_bytes(buf)
}

/// Lays out a string in `size` bytes, padded with zeros.
pub fn make_str_vec(s: &str, size: usize) -> (r: Vec<u8>)
    requires
        s.spec_bytes().len() <= size,
    ensures
        r@ == s.spec_bytes() + zeros((size - s.spec_bytes().len()) as nat),
{
    let bytes = s.as_bytes();
    let mut buf: Vec<u8> = Vec::new();
    let mut i: usize = 0;
    while i < bytes.len()
        invariant
            bytes@ == s.spec_bytes(),
            i <= bytes@.len(),
            buf@ == bytes@.take(i as int),
        decreases bytes@.len() - i,
    {
        buf.push(bytes[i]);
        assert(bytes@.take(i + 1) =~= bytes@.take(i as int).push(bytes@[i as int]));
        i = i + 1;
    }
    while i < size
        invariant
            bytes@ == s.spec_bytes(),
            bytes@.len() <= i <= size,
            buf@ == bytes@ + zeros((i - bytes@.len()) as nat),
        decreases size - i,
    {
        buf.push(0u8);
        assert(buf@ =~= bytes@ + zeros((i + 1 - bytes@.len()) as nat));
        i = i + 1;
    }
    assert(bytes@.take(bytes@.len() as int) =~= bytes@);
    assert(buf@ =~= bytes@ + zeros((size - bytes@.len()) as nat));
    buf
}

/// Writes a string padded with zeros to exactly `size` bytes.
pub fn serialize_str(s: &str, size: usize, f: &mut Vec<u8>)
    requires
        s.spec_bytes().len() <= size,
    ensures
        final(f)@ == old(f)@ + s.spec_bytes() + zeros((size - s.spec_bytes().len()) as nat),
{
    let mut buf = make_str_vec(s, size);
    f.append(&mut buf);
    assert(final(f)@ =~= old(f)@ + s.spec_bytes() + zeros((size - s.spec_bytes().len()) as nat));
}

/// Writes a string padded with zeros to exactly `N` bytes.
pub fn write_str<const N: usize>(s: &str, f: &mut Vec<u8>)
    requires
        s.spec_bytes().len() <= N,
    ensures
        final(f)@ == old(f)@ + s.spec_bytes() + zeros((N - s.spec_bytes().len()) as nat),
{
    serialize_str(s, N, f)
}

/// A string laid out in a zero-padded buffer reads back as itself when it holds no zero byte.
pub proof fn lemma_padded_string_roundtrip(chars: Seq<char>, pad: nat)
    requires
        no_nul(vstd::utf8::encode_utf8(chars)),
    ensures
        valid_utf8(until_nul(vstd::utf8::encode_utf8(chars) + zeros(pad))),
        decode_utf8(until_nul(vstd::utf8::encode_utf8(chars) + zeros(pad))) == chars,
{
    let b = vstd::utf8::encode_utf8(chars);
    let s = b + zeros(pad);
    assert(s.take(b.len() as int) =~= b);
    if pad > 0 {
        assert(s[b.len() as int] == 0);
    }
    lemma_until_nul(s, b.len() as int);
    vstd::utf8::encode_utf8_valid_utf8(chars);
    vstd::utf8::encode_utf8_decode_utf8(chars);
}

/// Reads the raw bytes of a string prefixed by its one-byte length.
pub fn read_bstring_raw<'a>(f: &mut &'a [u8]) -> (r: Result<Vec<u8>, TesError>)
    ensures
        r is Ok <==> old(f)@.len() >= 1 && old(f)@.len() >= 1 + old(f)@[0],
        r matches Ok(v) ==> v@ == old(f)@.subrange(1, 1 + old(f)@[0]) && final(f)@
            == old(f)@.subrange(1 + old(f)@[0], old(f)@.len() as int),
        r matches Err(e) ==> e is UnexpectedEof,
{
    let size = read_u8(f)? as usize;
    let buf = read_exact(f, size)?;
    Ok(vstd::slice::slice_to_vec(buf))
}

/// Reads a UTF-8 string prefixed by its one-byte length.
pub fn read_bstring<'a>(f: &mut &'a [u8]) -> (r: Result<String, TesError>)
    ensures
        r is Ok <==> old(f)@.len() >= 1 && old(f)@.len() >= 1 + old(f)@[0] && valid_utf8(
            old(f)@.subrange(1, 1 + old(f)@[0]),
        ),
        r matches Ok(s) ==> s@ == decode_utf8(old(f)@.subrange(1, 1 + old(f)@[0])) && final(f)@
            == old(f)@.subrange(1 + old(f)@[0], old(f)@.len() as int),
{
    let buf = read_bstring_raw(f)?;
    match str_from_utf8(buf.as_slice()) {
        Some(s) => Ok(s.to_owned()),
        None => Err(decode_failed("Failed to decode bstring")),
    }
}

/// Checks for a null-terminated string: a last byte of zero and no zero before it.
pub fn check_zstring(buf: &[u8]) -> (b: bool)
    ensures
        b == is_zstring(buf@),
{
    if buf.len() == 0 {
        return false;
    }
    let k = nul_position(buf);
    proof {
        if k == buf@.len() - 1 {
            assert(buf@.drop_last() =~= buf@.take(k as int));
            assert(no_nul(buf@.take(k as int))) by {
                lemma_until_nul_no_nul(buf@);
            }
        } else if is_zstring(buf@) {
            lemma_until_nul(buf@, buf@.len() - 1);
            assert(buf@.take(k as int).len() == k);
        }
    }
    k == buf.len() - 1
}

/// The prefix before the first zero byte holds no zero byte.
pub proof fn lemma_until_nul_no_nul(s: Seq<u8>)
    ensures
        no_nul(until_nul(s)),
        until_nul(s).len() <= s.len(),
        until_nul(s) =~= s.take(until_nul(s).len() as int),
    decreases s.len(),
{
    if s.len() > 0 && s[0] != 0 {
        lemma_until_nul_no_nul(s.drop_first());
        let t = until_nul(s.drop_first());
        assert(until_nul(s) =~= seq![s[0]] + t);
    }
}

/// Reads a null-terminated UTF-8 string prefixed by its one-byte length (which counts the null).
pub fn read_bzstring<'a>(f: &mut &'a [u8]) -> (r: Result<String, TesError>)
    ensures
        r is Ok <==> old(f)@.len() >= 1 && old(f)@.len() >= 1 + old(f)@[0] && is_zstring(
            old(f)@.subrange(1, 1 + old(f)@[0]),
        ) && valid_utf8(old(f)@.subrange(1, 1 + old(f)@[0]).drop_last()),
        r matches Ok(s) ==> s@ == decode_utf8(old(f)@.subrange(1, 1 + old(f)@[0]).drop_last())
            && final(f)@ == old(f)@.subrange(1 + old(f)@[0], old(f)@.len() as int),
{
    let buf = read_bstring_raw(f)?;
    if !check_zstring(buf.as_slice()) {
        return Err(decode_failed("Invalid null-terminated string"));
    }
    let body = vstd::slice::slice_subrange(buf.as_slice(), 0, buf.len() - 1);
    assert(body@ =~= buf@.drop_last());
    match str_from_utf8(body) {
        Some(s) => Ok(s.to_owned()),
        None => Err(decode_failed("Failed to decode bzstring")),
    }
}

/// Writes a string prefixed by its one-byte length.
pub fn write_bstring(f: &mut Vec<u8>, data: &str) -> (r: Result<(), TesError>)
    ensures
        r is Ok <==> data.spec_bytes().len() <= MAX_BSTRING,
        r is Ok ==> final(f)@ == old(f)@ + seq![data.spec_bytes().len() as u8]
            + data.spec_bytes(),
        r is Err ==> final(f)@ == old(f)@,
{
    let bytes = data.as_bytes();
    if bytes.len() > MAX_BSTRING {
        return Err(limit_exceeded("bstring too large", MAX_BSTRING, bytes.len()));
    }
    f.push(bytes.len() as u8);
    f.extend_from_slice(bytes);
    assert(final(f)@ =~= old(f)@ + seq![data.spec_bytes().len() as u8] + data.spec_bytes());
    Ok(())
}

/// Writes a null-terminated string prefixed by its one-byte length (which counts the null).
pub fn write_bzstring(f: &mut Vec<u8>, data: &str) -> (r: Result<(), TesError>)
    ensures
        r is Ok <==> data.spec_bytes().len() + 1 <= MAX_BSTRING,
        r is Ok ==> final(f)@ == old(f)@ + seq![(data.spec_bytes().len() + 1) as u8]
            + data.spec_bytes() + seq![0u8],
        r is Err ==> final(f)@ == old(f)@,
{
    let bytes = data.as_bytes();
    if bytes.len() >= MAX_BSTRING {
        return Err(limit_exceeded("bstring too large", MAX_BSTRING, bytes.len()));
    }
    f.push((bytes.len() + 1) as u8);
    f.extend_from_slice(bytes);
    f.push(0u8);
    assert(final(f)@ =~= old(f)@ + seq![(data.spec_bytes().len() + 1) as u8] + data.spec_bytes()
        + seq![0u8]);
    Ok(())
}

/// Compares two strings.
pub fn str_eq(a: &str, b: &str) -> (r: bool)
    ensures
        r == (a@ == b@),
{
    let x = a.as_bytes();
    let y = b.as_bytes();
    if x.len() != y.len() {
        return false;
    }
    let mut i: usize = 0;
    while i < x.len()
        invariant
            x@ == a.spec_bytes(),
            y@ == b.spec_bytes(),
            x@.len() == y@.len(),
            i <= x@.len(),
            forall|j: int| 0 <= j < i ==> x@[j] == y@[j],
        decreases x@.len() - i,
    {
        if x[i] != y[i] {
            return false;
        }
        i = i + 1;
    }
    proof {
        assert(x@ =~= y@);
        vstd::utf8::encode_utf8_decode_utf8(a@);
        vstd::utf8::encode_utf8_decode_utf8(b@);
    }
    true
}

/// The length in bytes of a string.
pub fn str_len(s: &str) -> (r: usize)
    ensures
        r == vstd::utf8::encode_utf8(s@).len(),
{
    s.as_bytes().len()
}

} // verus!
