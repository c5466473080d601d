//! Text that the driver writes into byte buffers.
//!
//! The driver ends a text with a zero byte; a buffer without one is text to
//! its end. The bytes before the terminator must be UTF-8.

use vstd::prelude::*;
use vstd::slice::slice_subrange;
use vstd::string::StringSliceAdditionalSpecFns;
use vstd::utf8::{decode_utf8, encode_utf8_decode_utf8, valid_utf8};
use crate::result::Error;

verus! {

/// The number of bytes before the first zero byte, or the length of the
/// buffer if it holds none.
pub open spec fn text_len(buf: Seq<u8>) -> int
    decreases buf.len(),
{
    if buf.len() == 0 || buf[0] == 0 {
        0
    } else {
        1 + text_len(buf.drop_first())
    }
}

/// The bytes of the text in a buffer: those before the terminator.
pub open spec fn text_bytes(buf: Seq<u8>) -> Seq<u8> {
    buf.subrange(0, text_len(buf))
}

/// `text_len` is the one position that ends the buffer or holds a zero byte
/// and has no zero byte before it.
pub proof fn lemma_text_len(buf: Seq<u8>, n: int)
    requires
        0 <= n <= buf.len(),
        n < buf.len() ==> buf[n] == 0,
        forall|i: int| 0 <= i < n ==> buf[i] != 0,
    ensures
        text_len(buf) == n,
    decreases buf.len(),
{
    if n > 0 {
        let rest = buf.drop_first();
        assert forall|i: int| 0 <= i < n - 1 implies rest[i] != 0 by {
            assert(rest[i] == buf[i + 1]);
        }
        lemma_text_len(rest, n - 1);
    }
}

/// The text ends inside the buffer, at a zero byte unless at the buffer's end,
/// and holds no zero byte.
pub proof fn lemma_text_ends_at_terminator(buf: Seq<u8>)
    ensures
        0 <= text_len(buf) <= buf.len(),
        text_len(buf) < buf.len() ==> buf[text_len(buf)] == 0,
        forall|i: int| 0 <= i < text_len(buf) ==> buf[i] != 0,
        text_bytes(buf).len() == text_len(buf),
    decreases buf.len(),
{
    if buf.len() > 0 && buf[0] != 0 {
        let rest = buf.drop_first();
        lemma_text_ends_at_terminator(rest);
        assert forall|i: int| 0 <= i < text_len(buf) implies buf[i] != 0 by {
            if i > 0 {
                assert(buf[i] == rest[i - 1]);
            }
        }
        if text_len(buf) < buf.len() {
            assert(buf[text_len(buf)] == rest[text_len(rest)]);
        }
    }
}

/// `core::str::from_utf8`: the bytes as a string slice if they are valid
/// UTF-8, and `None` if they are not. The slice it returns is made of the very
/// bytes it was given.
#[verifier::external_body]
fn from_utf8<'a>(bytes: &'a [u8]) -> (text: Option<&'a str>)
    ensures
        text is Some <==> valid_utf8(bytes@),
        text matches Some(s) ==> s.spec_bytes() == bytes@,
{
    match core::str::from_utf8(bytes) {
        Ok(s) => Some(s),
        Err(_) => None,
    }
}

/// Reads the text that a buffer holds.
///
/// Fails with `Error::Decode` exactly when the bytes before the terminator
/// are not valid UTF-8; nothing is substituted or cut off.
pub fn unmarshal_string(buf: &[u8]) -> (r: Result<String, Error>)
    ensures
        valid_utf8(text_bytes(buf@)) ==> (r matches Ok(s) && s@ == decode_utf8(text_bytes(buf@))),
        !valid_utf8(text_bytes(buf@)) ==> r == Err::<String, Error>(Error::Decode),
{
    let mut n: usize = 0;
    while n < buf.len() && buf[n] != 0
        invariant
            n <= buf.len(),
            forall|i: int| 0 <= i < n ==> buf@[i] != 0,
        decreases buf.len() - n,
    {
        n = n + 1;
    }
    proof {
        lemma_text_len(buf@, n as int);
    }
    let bytes = slice_subrange(buf, 0, n);
    match from_utf8(bytes) {
        Some(s) => {
            proof {
                encode_utf8_decode_utf8(s@);
            }
            Ok(s.to_owned())
        },
        None => Err(Error::Decode),
    }
}

} // verus!
