//! The output sink: a byte-oriented write target in front of the session's
//! text-oriented display entry.
//!
//! Writes only accumulate bytes; a flush is the one boundary at which the
//! accumulated bytes become a decode attempt. A successful decode hands the
//! text to the session for display; a failed one reports invalid data and
//! discards the bytes. Either way the buffer is empty afterwards.

use vstd::prelude::*;
use crate::TermError;
use crate::session::Session;

verus! {

/// What decoding a byte sequence as UTF-8 yields: the decoded characters
/// when the bytes are valid UTF-8, and nothing otherwise.
pub uninterp spec fn utf8_decode(bytes: Seq<u8>) -> Option<Seq<char>>;

/// Relies on `String::from_utf8`: it returns `Ok` exactly when the bytes
/// are valid UTF-8, and the returned string then holds the characters those
/// bytes encode. The result depends on the bytes alone.
#[verifier::external_body]
fn decode_bytes(bytes: Vec<u8>) -> (r: Option<String>)
    ensures
        r is Some <==> utf8_decode(bytes@) is Some,
        r matches Some(s) ==> Some(s@) == utf8_decode(bytes@),
{
    String::from_utf8(bytes).ok()
}

/// A buffering write target for the renderer's byte output. Bytes written
/// but not yet flushed are never visible to the display.
pub struct TerminalHandle {
    buffer: Vec<u8>,
}

impl Default for TerminalHandle {
    /// A fresh handle with an empty buffer.
    fn default() -> (h: Self)
        ensures
            h.buffered() == Seq::<u8>::empty(),
    {
        TerminalHandle { buffer: Vec::new() }
    }
}

impl TerminalHandle {
    /// The bytes written since the last flush, in order.
    pub closed spec fn buffered(&self) -> Seq<u8> {
        self.buffer@
    }

    /// How many bytes are waiting for the next flush.
    pub fn buffered_len(&self) -> (n: usize)
        ensures
            n == self.buffered().len(),
    {
        self.buffer.len()
    }

    /// Append the given bytes to the internal buffer. Always succeeds and
    /// accepts every byte offered.
    pub fn write(&mut self, buf: &[u8]) -> (n: usize)
        ensures
            final(self).buffered() == old(self).buffered() + buf@,
            n == buf@.len(),
    {
        let mut i: usize = 0;
        while i < buf.len()
            invariant
                i <= buf@.len(),
                self.buffered() == old(self).buffered() + buf@.take(i as int),
            decreases buf@.len() - i,
        {
            self.buffer.push(buf[i]);
            proof {
                assert(old(self).buffered() + buf@.take(i as int) + seq![buf@[i as int]]
                    =~= old(self).buffered() + buf@.take(i + 1));
            }
            i = i + 1;
        }
        proof {
            assert(old(self).buffered() + buf@.take(buf@.len() as int)
                =~= old(self).buffered() + buf@);
        }
        buf.len()
    }

    /// Take the accumulated bytes — the buffer is empty afterwards, whatever
    /// the outcome — and attempt to decode them as UTF-8. On success the
    /// decoded text goes to the session's display, exactly once, and comes
    /// back to the caller; on failure the invalid-data error is reported,
    /// nothing is displayed, and the undecodable bytes are discarded.
    pub fn flush(&mut self, session: &mut Session) -> (r: Result<String, TermError>)
        ensures
            final(self).buffered() == Seq::<u8>::empty(),
            final(session).fit_enabled() == old(session).fit_enabled(),
            utf8_decode(old(self).buffered()) matches Some(text) ==> {
                &&& r matches Ok(s) && s@ == text
                &&& final(session).displayed_log() == old(session).displayed_log().push(text)
            },
            utf8_decode(old(self).buffered()) is None ==> {
                &&& r == Err::<String, TermError>(TermError::InvalidData)
                &&& final(session).displayed_log() == old(session).displayed_log()
            },
    {
        let mut taken: Vec<u8> = Vec::new();
        core::mem::swap(&mut self.buffer, &mut taken);
        match decode_bytes(taken) {
            Some(s) => {
                session.display(s.as_str());
                Ok(s)
            },
            None => Err(TermError::InvalidData),
        }
    }
}

} // verus!
