//! Fixed-size, NUL-terminated text buffers as the kernel records carry them.
use vstd::prelude::*;
use vstd::utf8::{decode_utf8, encode_utf8, encode_utf8_decode_utf8, encode_utf8_valid_utf8, valid_utf8};
use vstd::string::StringSliceAdditionalSpecFns;
use crate::GPIO_MAX_NAME_SIZE;

verus! {

/// The text that `String::from_utf8_lossy` makes of a byte sequence.
pub uninterp spec fn lossy_utf8(b: Seq<u8>) -> Seq<char>;

/// Relies on `String::from_utf8_lossy`: the text of the bytes, each invalid
/// sequence replaced by U+FFFD; valid UTF-8 is decoded unchanged.
#[verifier::external_body]
fn utf8_lossy(b: &[u8]) -> (r: String)
    ensures
        r@ == lossy_utf8(b@),
        valid_utf8(b@) ==> r@ == decode_utf8(b@),
{
    String::from_utf8_lossy(b).into_owned()
}

/// Number of bytes before the first NUL of `b`, or its length when it has none.
pub open spec fn nul_position(b: Seq<u8>) -> nat
    decreases b.len(),
{
    if b.len() == 0 {
        0
    } else if b[0] == 0 {
        0
    } else {
        1 + nul_position(b.drop_first())
    }
}

/// The bytes of `b` before its first NUL; all of `b` when it has none.
pub open spec fn until_nul(b: Seq<u8>) -> Seq<u8> {
    b.take(nul_position(b) as int)
}

/// The 32-byte buffer that holds the text `b`: at most its first 31 bytes,
/// then NUL bytes to the end, so that a terminator always remains.
pub open spec fn encoded_label(b: Seq<u8>) -> Seq<u8> {
    Seq::new(
        GPIO_MAX_NAME_SIZE as nat,
        |i: int| if i < b.len() && i < GPIO_MAX_NAME_SIZE - 1 { b[i] } else { 0u8 },
    )
}

/// `nul_position` stops at the first NUL, or at the end.
pub proof fn lemma_nul_position(b: Seq<u8>)
    ensures
        nul_position(b) <= b.len(),
        forall|j: int| 0 <= j < nul_position(b) ==> b[j] != 0,
        nul_position(b) < b.len() ==> b[nul_position(b) as int] == 0,
    decreases b.len(),
{
    if b.len() > 0 && b[0] != 0 {
        lemma_nul_position(b.drop_first());
        assert forall|j: int| 0 <= j < nul_position(b) implies b[j] != 0 by {
            if j > 0 {
                assert(b[j] == b.drop_first()[j - 1]);
            }
        }
    }
}

/// A position where `b` has a NUL and all bytes before it are not NUL is
/// `nul_position(b)`.
proof fn lemma_nul_position_at(b: Seq<u8>, n: int)
    requires
        0 <= n <= b.len(),
        forall|j: int| 0 <= j < n ==> b[j] != 0,
        n < b.len() ==> b[n] == 0,
    ensures
        nul_position(b) == n,
    decreases b.len(),
{
    if b.len() > 0 && n > 0 {
        lemma_nul_position_at(b.drop_first(), n - 1);
    }
}

/// A text buffer of the kernel's name size.
#[derive(Clone, Copy, Debug)]
pub struct CString {
    pub bytes: [u8; 32],
}

impl CString {
    /// The buffer holding `text`, cut after 31 bytes so that a NUL terminator
    /// always remains; the rest of the buffer is NUL.
    pub fn new(text: &str) -> (r: CString)
        ensures
            r.bytes@ == encoded_label(text.spec_bytes()),
    {
        let src = text.as_bytes();
        let len: usize = if src.len() < GPIO_MAX_NAME_SIZE - 1 {
            src.len()
        } else {
            GPIO_MAX_NAME_SIZE - 1
        };
        let mut buf: [u8; 32] = [0u8; 32];
        let mut i: usize = 0;
        while i < len
            invariant
                len <= src@.len(),
                len <= 31,
                i <= len,
                src@ == text.spec_bytes(),
                buf@.len() == 32,
                forall|j: int| 0 <= j < i ==> buf@[j] == src@[j],
                forall|j: int| i <= j < 32 ==> buf@[j] == 0,
            decreases len - i,
        {
            buf[i] = src[i];
            i += 1;
        }
        assert(buf@ =~= encoded_label(text.spec_bytes()));
        CString { bytes: buf }
    }

    /// The empty text: every byte NUL.
    pub fn empty() -> (r: CString)
        ensures
            forall|i: int| 0 <= i < 32 ==> r.bytes@[i] == 0,
    {
        CString { bytes: [0u8; 32] }
    }

    /// The bytes before the first NUL, or the whole buffer when it holds none.
    pub fn to_bytes(&self) -> (r: Vec<u8>)
        ensures
            r@ == until_nul(self.bytes@),
    {
        let mut out: Vec<u8> = Vec::new();
        let mut i: usize = 0;
        while i < 32 && self.bytes[i] != 0
            invariant
                i <= 32,
                self.bytes@.len() == 32,
                out@ == self.bytes@.take(i as int),
                forall|j: int| 0 <= j < i ==> self.bytes@[j] != 0,
            decreases 32 - i,
        {
            out.push(self.bytes[i]);
            i += 1;
            assert(out@ =~= self.bytes@.take(i as int));
        }
        proof {
            lemma_nul_position_at(self.bytes@, i as int);
        }
        out
    }

    /// The text before the first NUL, or of the whole buffer when it holds
    /// none; bytes that are not UTF-8 become U+FFFD. Never fails.
    pub fn to_string_lossy(&self) -> (r: String)
        ensures
            r@ == lossy_utf8(until_nul(self.bytes@)),
            valid_utf8(until_nul(self.bytes@)) ==> r@ == decode_utf8(until_nul(self.bytes@)),
    {
        let b = self.to_bytes();
        utf8_lossy(b.as_slice())
    }
}

/// A label of at most 31 bytes without a NUL comes back unchanged from its
/// buffer, as bytes and as text.
pub proof fn lemma_label_round_trip(label: Seq<char>)
    requires
        encode_utf8(label).len() < GPIO_MAX_NAME_SIZE,
        forall|i: int| 0 <= i < encode_utf8(label).len() ==> encode_utf8(label)[i] != 0,
    ensures
        until_nul(encoded_label(encode_utf8(label))) == encode_utf8(label),
        valid_utf8(until_nul(encoded_label(encode_utf8(label)))),
        decode_utf8(until_nul(encoded_label(encode_utf8(label)))) == label,
{
    let b = encode_utf8(label);
    let e = encoded_label(b);
    lemma_nul_position_at(e, b.len() as int);
    assert(until_nul(e) =~= b);
    encode_utf8_valid_utf8(label);
    encode_utf8_decode_utf8(label);
}

/// Whatever the text, its buffer reads back as at most 31 bytes, the first
/// bytes of the text.
pub proof fn lemma_label_truncated(text: Seq<u8>)
    ensures
        until_nul(encoded_label(text)).len() < GPIO_MAX_NAME_SIZE,
        until_nul(encoded_label(text)).len() <= text.len(),
        until_nul(encoded_label(text)) == text.take(until_nul(encoded_label(text)).len() as int),
{
    let e = encoded_label(text);
    lemma_nul_position(e);
    if nul_position(e) >= GPIO_MAX_NAME_SIZE - 1 {
        assert(e[31] == 0);
    }
    if nul_position(e) > text.len() {
        assert(e[text.len() as int] == 0);
    }
    assert(until_nul(e) =~= text.take(until_nul(e).len() as int));
}

} // verus!
