use vstd::prelude::*;
use vstd::slice::slice_subrange;
use vstd::string::StringSliceAdditionalSpecFns;
use vstd::utf8::{
    char_is_scalar, char_u32_cast, decode_utf8, decode_utf8_encode_utf8, encode_scalar, encode_utf8,
    encode_utf8_decode_utf8, encode_utf8_valid_utf8, has_width_1_encoding, has_width_2_encoding,
    has_width_3_encoding, is_scalar, valid_utf8,
};
use crate::error::Error;

verus! {

/// The number of bytes in a native text slot, terminator included.
pub const TEXT_CAPACITY: usize = 1024;

/// Whether a text can be stored in a native text slot: its bytes and one
/// terminating zero byte must find room.
pub open spec fn fits(text: Seq<char>) -> bool {
    encode_utf8(text).len() < TEXT_CAPACITY
}

/// A slot after `text` was written into it: the bytes of the text from the
/// start, and behind them what the slot held before.
pub open spec fn written(text: Seq<char>, slot: Seq<u8>) -> Seq<u8> {
    encode_utf8(text) + slot.skip(encode_utf8(text).len() as int)
}

/// A slot that nothing was written into: zero bytes throughout.
pub open spec fn blank_slot() -> Seq<u8> {
    Seq::new(TEXT_CAPACITY as nat, |i: int| 0u8)
}

/// The slot that stands for `text` in a record: the text written into a
/// blank slot.
pub open spec fn slot_of(text: Seq<char>) -> Seq<u8> {
    written(text, blank_slot())
}

/// The text that a slot holds: the bytes before its first zero byte, read as
/// UTF-8. A slot without a zero byte, or one whose bytes before it are not
/// well-formed, holds no text.
pub open spec fn read(slot: Seq<u8>) -> Option<Seq<char>> {
    match slot.index_of_first(0u8) {
        Some(end) => if valid_utf8(slot.take(end)) {
            Some(decode_utf8(slot.take(end)))
        } else {
            None
        },
        None => None,
    }
}

/// Calls `core::str::from_utf8`. Taken on trust, not proved: the bytes are
/// accepted exactly when they are well-formed UTF-8, and the text handed
/// back is made of the very same bytes.
#[verifier::external_body]
fn text_of_utf8(bytes: &[u8]) -> (text: Option<&str>)
    ensures
        text is Some <==> valid_utf8(bytes@),
        text matches Some(s) ==> s.spec_bytes() == bytes@,
{
    match core::str::from_utf8(bytes) {
        Ok(s) => Some(s),
        Err(_) => None,
    }
}

/// The first zero byte of a sequence stands where a zero byte follows
/// nothing but non-zero bytes.
pub proof fn lemma_first_zero(slot: Seq<u8>, end: int)
    requires
        0 <= end < slot.len(),
        slot[end] == 0,
        forall|j: int| 0 <= j < end ==> slot[j] != 0,
    ensures
        slot.index_of_first(0u8) == Some(end),
{
    slot.index_of_first_ensures(0u8);
    assert(slot.contains(0u8));
}

/// Writes `s` into the slot `c`, from its start and without a terminator of
/// its own: the bytes behind the text stay as they were. A text that leaves
/// no room for a terminator is refused, and the slot is not touched.
pub fn encode_text(s: &str, c: &mut [u8; TEXT_CAPACITY]) -> (res: Result<(), Error>)
    ensures
        fits(s@) ==> res is Ok && final(c)@ == written(s@, old(c)@),
        !fits(s@) ==> res == Err::<(), Error>(Error::TooLong) && final(c)@ == old(c)@,
{
    let bytes = s.as_bytes();
    let n = bytes.len();
    if n >= TEXT_CAPACITY {
        return Err(Error::TooLong);
    }
    let mut i: usize = 0;
    while i < n
        invariant
            n == bytes@.len(),
            n < TEXT_CAPACITY,
            0 <= i <= n,
            forall|j: int| 0 <= j < i ==> c@[j] == bytes@[j],
            forall|j: int| i <= j < TEXT_CAPACITY ==> c@[j] == old(c)@[j],
        decreases n - i,
    {
        c[i] = bytes[i];
        i += 1;
    }
    assert(c@ =~= written(s@, old(c)@));
    Ok(())
}

/// Reads the text that the slot `c` holds: the bytes before the first zero
/// byte. A slot that holds no text is a decoding error.
pub fn decode_text(c: &[u8; TEXT_CAPACITY]) -> (res: Result<String, Error>)
    ensures
        match res {
            Ok(s) => read(c@) == Some(s@),
            Err(e) => read(c@) is None && e == Error::Decode,
        },
{
    let mut n: usize = 0;
    while n < TEXT_CAPACITY && c[n] != 0
        invariant
            0 <= n <= TEXT_CAPACITY,
            forall|j: int| 0 <= j < n ==> c@[j] != 0,
        decreases TEXT_CAPACITY - n,
    {
        n += 1;
    }
    if n == TEXT_CAPACITY {
        proof {
            c@.index_of_first_ensures(0u8);
        }
        return Err(Error::Decode);
    }
    proof {
        lemma_first_zero(c@, n as int);
    }
    let prefix = slice_subrange(c.as_slice(), 0, n);
    assert(prefix@ == c@.take(n as int));
    match text_of_utf8(prefix) {
        Some(s) => {
            proof {
                encode_utf8_decode_utf8(s@);
            }
            Ok(s.to_owned())
        },
        None => Err(Error::Decode),
    }
}

/// Whether two texts are the same, character by character.
pub fn text_eq(a: &str, b: &str) -> (same: bool)
    ensures
        same == (a@ == b@),
{
    let x = a.as_bytes();
    let y = b.as_bytes();
    proof {
        encode_utf8_decode_utf8(a@);
        encode_utf8_decode_utf8(b@);
    }
    if x.len() != y.len() {
        return false;
    }
    let mut i: usize = 0;
    while i < x.len()
        invariant
            x@ == encode_utf8(a@),
            y@ == encode_utf8(b@),
            x@.len() == y@.len(),
            0 <= i <= x@.len(),
            forall|j: int| 0 <= j < i ==> x@[j] == y@[j],
        decreases x@.len() - i,
    {
        if x[i] != y[i] {
            return false;
        }
        i += 1;
    }
    assert(x@ =~= y@);
    true
}

/// The empty text fits, and writing it leaves a slot as it was.
pub proof fn lemma_written_empty(slot: Seq<u8>)
    ensures
        fits(Seq::<char>::empty()),
        written(Seq::<char>::empty(), slot) == slot,
{
    assert(written(Seq::<char>::empty(), slot) =~= slot);
}

/// The encoding of a scalar value holds a zero byte only if the value is zero.
proof fn lemma_scalar_zero_byte(c: u32)
    requires
        is_scalar(c),
    ensures
        encode_scalar(c).contains(0u8) <==> c == 0,
{
    let bytes = encode_scalar(c);
    if has_width_1_encoding(c) {
        assert(((c & 0x7F) as u8 == 0u8) <==> c == 0) by (bit_vector)
            requires
                c <= 0x7F,
        ;
        assert(bytes[0] == (c & 0x7F) as u8);
    } else {
        assert(0xC0u8 | ((c >> 6) & 0x1F) as u8 != 0) by (bit_vector);
        assert(0xE0u8 | ((c >> 12) & 0x0F) as u8 != 0) by (bit_vector);
        assert(0xF0u8 | ((c >> 18) & 0x7) as u8 != 0) by (bit_vector);
        assert(0x80u8 | (c & 0x3F) as u8 != 0) by (bit_vector);
        assert(0x80u8 | ((c >> 6) & 0x3F) as u8 != 0) by (bit_vector);
        assert(0x80u8 | ((c >> 12) & 0x3F) as u8 != 0) by (bit_vector);
        if has_width_2_encoding(c) {
            assert(bytes.len() == 2);
        } else if has_width_3_encoding(c) {
            assert(bytes.len() == 3);
        } else {
            assert(bytes.len() == 4);
        }
    }
}

/// The bytes of a text hold a zero byte exactly when the text holds the
/// character NUL.
pub proof fn lemma_zero_byte_is_nul(text: Seq<char>)
    ensures
        encode_utf8(text).contains(0u8) <==> text.contains('\0'),
    decreases text.len(),
{
    if text.len() == 0 {
    } else {
        let head = encode_scalar(text[0] as u32);
        let tail = encode_utf8(text.drop_first());
        char_is_scalar(text[0]);
        lemma_scalar_zero_byte(text[0] as u32);
        lemma_zero_byte_is_nul(text.drop_first());
        assert(encode_utf8(text) == head + tail);
        if text.contains('\0') {
            let i = choose|i: int| 0 <= i < text.len() && text[i] == '\0';
            if i == 0 {
                let k = choose|k: int| 0 <= k < head.len() && head[k] == 0u8;
                assert((head + tail)[k] == 0u8);
            } else {
                assert(text.drop_first()[i - 1] == '\0');
                let k = choose|k: int| 0 <= k < tail.len() && tail[k] == 0u8;
                assert((head + tail)[head.len() + k] == 0u8);
            }
        }
        if encode_utf8(text).contains(0u8) {
            let k = choose|k: int| 0 <= k < (head + tail).len() && (head + tail)[k] == 0u8;
            if k < head.len() {
                assert(head[k] == 0u8);
                char_u32_cast(text[0], 0u32);
                char_u32_cast('\0', 0u32);
            } else {
                assert(tail[k - head.len()] == 0u8);
                let i = choose|i: int|
                    0 <= i < text.drop_first().len() && text.drop_first()[i] == '\0';
                assert(text[i + 1] == '\0');
            }
        }
    }
}

/// A text without NUL that fits, written over a slot that holds a zero byte
/// right behind it, is the text that the slot then holds.
pub proof fn lemma_read_written(text: Seq<char>, slot: Seq<u8>)
    requires
        fits(text),
        !text.contains('\0'),
        slot.len() == TEXT_CAPACITY,
        slot[encode_utf8(text).len() as int] == 0,
    ensures
        read(written(text, slot)) == Some(text),
{
    let bytes = encode_utf8(text);
    let after = written(text, slot);
    lemma_zero_byte_is_nul(text);
    assert forall|j: int| 0 <= j < bytes.len() implies after[j] != 0 by {
        assert(after[j] == bytes[j]);
    }
    lemma_first_zero(after, bytes.len() as int);
    assert(after.take(bytes.len() as int) =~= bytes);
    encode_utf8_valid_utf8(text);
    encode_utf8_decode_utf8(text);
}

/// The text that a slot holds fits into a slot, has no NUL in it, and its
/// bytes are those that the slot holds before its first zero byte.
pub proof fn lemma_read_fits(slot: Seq<u8>)
    requires
        slot.len() == TEXT_CAPACITY,
        read(slot) is Some,
    ensures
        fits(read(slot)->0),
        !read(slot)->0.contains('\0'),
        slot.index_of_first(0u8) is Some,
        encode_utf8(read(slot)->0) == slot.take(slot.index_of_first(0u8)->0),
{
    slot.index_of_first_ensures(0u8);
    let end = slot.index_of_first(0u8)->0;
    let bytes = slot.take(end);
    decode_utf8_encode_utf8(bytes);
    lemma_zero_byte_is_nul(read(slot)->0);
    if bytes.contains(0u8) {
        let k = choose|k: int| 0 <= k < bytes.len() && bytes[k] == 0u8;
        assert(slot[k] == 0u8);
    }
}

} // verus!
