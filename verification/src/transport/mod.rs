//! Framing: one envelope to a line of text.
//!
//! Reading and writing the stream is left to whoever embeds the library.
//! What is here says which part of a line that was read is the envelope,
//! and what is written for an envelope.

use crate::text::{join2, trim, trimmed};
use vstd::prelude::*;

verus! {

/// Why a line that was read holds no envelope.
#[derive(Clone, Copy, Debug, PartialEq, Eq, Structural)]
pub enum FrameError {
    /// Nothing was read: the stream has ended.
    EndOfStream,
    /// The line holds white space only.
    EmptyLine,
}

/// What a frame error is reported as.
pub open spec fn frame_error_text(error: FrameError) -> Seq<char> {
    match error {
        FrameError::EndOfStream => "EOF reached"@,
        FrameError::EmptyLine => "Empty line received"@,
    }
}

impl FrameError {
    /// What the error is reported as.
    pub fn describe(&self) -> (r: String)
        ensures
            r@ == frame_error_text(*self),
    {
        match self {
            FrameError::EndOfStream => "EOF reached".to_owned(),
            FrameError::EmptyLine => "Empty line received".to_owned(),
        }
    }
}

/// The text of the envelope in a line that was read, where `bytes_read` is
/// what reading the line returned: the line without the white space at its
/// ends.  A read of nothing is the end of the stream, and a line of white
/// space is an error, not a line to skip.
pub open spec fn spec_unframe(bytes_read: usize, line: Seq<char>) -> Result<Seq<char>, FrameError> {
    if bytes_read == 0 {
        Err(FrameError::EndOfStream)
    } else if trimmed(line).len() == 0 {
        Err(FrameError::EmptyLine)
    } else {
        Ok(trimmed(line))
    }
}

/// Takes the text of the envelope out of a line that was read.
pub fn unframe(bytes_read: usize, line: &str) -> (r: Result<&str, FrameError>)
    ensures
        match r {
            Ok(text) => spec_unframe(bytes_read, line@) == Ok::<Seq<char>, FrameError>(text@),
            Err(e) => spec_unframe(bytes_read, line@) == Err::<Seq<char>, FrameError>(e),
        },
{
    if bytes_read == 0 {
        return Err(FrameError::EndOfStream);
    }
    let text = trim(line);
    if text.unicode_len() == 0 {
        Err(FrameError::EmptyLine)
    } else {
        Ok(text)
    }
}

/// The line that is written for the text of an envelope: the text and a
/// newline.
pub fn frame(text: &str) -> (line: String)
    ensures
        line@ == text@.push('\n'),
{
    proof {
        reveal_strlit("\n");
    }
    let line = join2(text, "\n");
    assert(line@ =~= text@.push('\n'));
    line
}

} // verus!
