use vstd::prelude::*;
use crate::errors::MessageResolutionError;

verus! {

/// The fixed bound of the operating system's error-message buffer.
pub const ERR_MSG_BUF_LEN: usize = 128;

/// Index of the first terminator byte in the buffer, or the buffer's length
/// when it holds none.
pub open spec fn first_terminator(buf: Seq<u8>) -> int
    decreases buf.len(),
{
    if buf.len() == 0 {
        0
    } else if buf.first() == 0 {
        0
    } else {
        1 + first_terminator(buf.drop_first())
    }
}

/// Whether the buffer holds a terminator byte at all.
pub open spec fn has_terminator(buf: Seq<u8>) -> bool {
    first_terminator(buf) < buf.len()
}

/// The message a buffer carries: everything before its first terminator byte.
pub open spec fn message_bytes(buf: Seq<u8>) -> Seq<u8> {
    buf.take(first_terminator(buf))
}

/// `first_terminator` points at the first terminator byte: it stays within
/// the buffer, nothing before it is a terminator, and it lands on one
/// whenever the buffer holds one.
pub proof fn lemma_first_terminator(buf: Seq<u8>)
    ensures
        0 <= first_terminator(buf) <= buf.len(),
        forall|j: int| 0 <= j < first_terminator(buf) ==> buf[j] != 0,
        has_terminator(buf) ==> buf[first_terminator(buf)] == 0,
    decreases buf.len(),
{
    if buf.len() == 0 {
    } else if buf.first() == 0 {
    } else {
        lemma_first_terminator(buf.drop_first());
        assert forall|j: int| 0 <= j < first_terminator(buf) implies buf[j] != 0 by {
            if j > 0 {
                assert(buf.drop_first()[j - 1] == buf[j]);
            }
        }
        if has_terminator(buf) {
            assert(buf.drop_first()[first_terminator(buf.drop_first())] == buf[first_terminator(
                buf,
            )]);
        }
    }
}

/// Truncate the buffer at its first terminator byte; when no terminator
/// stands within the bound, report an error rather than read past it.
pub fn resolve_buffer(buf: &Vec<u8>) -> (r: Result<Vec<u8>, MessageResolutionError>)
    ensures
        r is Ok <==> has_terminator(buf@),
        (r matches Ok(m) ==> m@ == message_bytes(buf@)),
{
    let mut out: Vec<u8> = Vec::new();
    let mut i: usize = 0;
    while i < buf.len()
        invariant
            i <= buf.len(),
            out@ == buf@.take(i as int),
            forall|j: int| 0 <= j < i ==> buf@[j] != 0,
        decreases buf.len() - i,
    {
        let b = buf[i];
        if b == 0 {
            proof {
                lemma_first_terminator(buf@);
            }
            return Ok(out);
        }
        out.push(b);
        proof {
            assert(out@ =~= buf@.take(i as int + 1));
        }
        i += 1;
    }
    proof {
        lemma_first_terminator(buf@);
    }
    Err(MessageResolutionError)
}

/// The text that lossy decoding renders from a sequence of bytes.
pub uninterp spec fn utf8_lossy_of(bytes: Seq<u8>) -> Seq<char>;

/// Relies on alloc's `String::from_utf8_lossy` to render bytes as text:
/// the result is a function of the bytes alone.
#[verifier::external_body]
fn utf8_lossy(bytes: &Vec<u8>) -> (r: String)
    ensures
        r@ == utf8_lossy_of(bytes@),
{
    String::from_utf8_lossy(bytes.as_slice()).into_owned()
}

/// Truncate the buffer at its first terminator byte and render the message
/// as text; when no terminator stands within the bound, report an error.
pub fn resolve_message(buf: &Vec<u8>) -> (r: Result<String, MessageResolutionError>)
    ensures
        r is Ok <==> has_terminator(buf@),
        (r matches Ok(s) ==> s@ == utf8_lossy_of(message_bytes(buf@))),
{
    match resolve_buffer(buf) {
        Ok(m) => Ok(utf8_lossy(&m)),
        Err(e) => Err(e),
    }
}

} // verus!
