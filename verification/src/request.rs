//! The request-line parser: from a raw request buffer to a request path.

use vstd::prelude::*;
use vstd::string::*;
use vstd::utf8::*;
use crate::error::Error;
use crate::text::{has_prefix, SLASH};

verus! {

/// The size of the buffer that a request is read into. Only this much of
/// a request is ever looked at.
pub const READ_BUFFER_SIZE: usize = 256;

/// Offset of the slash that opens the path, right behind `GET `.
pub const START_OF_PATH: usize = 4;

/// The byte `.`.
pub const DOT: u8 = 0x2e;

/// The space, which ends the path where the protocol version follows.
pub const SPACE: u8 = 0x20;

/// The byte `?`, which ends the path where a query string follows.
pub const QUERY: u8 = 0x3f;

/// The byte `#`, which ends the path where a fragment follows.
pub const FRAGMENT: u8 = 0x23;

/// The bytes that every accepted request begins with.
pub open spec fn method_prefix() -> Seq<u8> {
    "GET /".spec_bytes()
}

/// Whether `byte` ends the path: a space, `?` or `#`.
pub open spec fn is_terminator(byte: u8) -> bool {
    byte == SPACE || byte == QUERY || byte == FRAGMENT
}

/// Whether no byte of `buffer` in `from..to` ends the path.
pub open spec fn no_terminator(buffer: Seq<u8>, from: int, to: int) -> bool {
    forall|k: int| from <= k < to ==> !is_terminator(#[trigger] buffer[k])
}

/// Whether `end` is where the path of `buffer` ends: the first terminator
/// behind the opening slash, or the end of the buffer where there is none.
pub open spec fn is_path_end(buffer: Seq<u8>, end: int) -> bool {
    &&& START_OF_PATH < end <= buffer.len()
    &&& no_terminator(buffer, START_OF_PATH + 1, end)
    &&& end < buffer.len() ==> is_terminator(buffer[end])
}

/// Where the path of `buffer` ends, for a buffer that holds the method prefix.
pub open spec fn path_end(buffer: Seq<u8>) -> int {
    choose|end: int| is_path_end(buffer, end)
}

/// Whether two dots stand side by side in `buffer`, both inside `from..to`.
pub open spec fn has_double_dot(buffer: Seq<u8>, from: int, to: int) -> bool {
    exists|k: int| from <= k && k + 1 < to && #[trigger] buffer[k] == DOT && buffer[k + 1] == DOT
}

/// The bytes of the path: from the opening slash up to the path's end.
pub open spec fn path_bytes(buffer: Seq<u8>) -> Seq<u8> {
    buffer.subrange(START_OF_PATH as int, path_end(buffer))
}

/// Whether `buffer` is an acceptable request: it begins with the method
/// prefix, its path holds no two dots side by side, and its path is UTF-8.
pub open spec fn acceptable(buffer: Seq<u8>) -> bool {
    &&& method_prefix().is_prefix_of(buffer)
    &&& !has_double_dot(buffer, START_OF_PATH as int, path_end(buffer))
    &&& valid_utf8(path_bytes(buffer))
}

/// What parsing `buffer` yields: the decoded path, or `BadRequest`.
pub open spec fn parsed(buffer: Seq<u8>) -> Result<Seq<char>, Error> {
    if acceptable(buffer) {
        Ok(decode_utf8(path_bytes(buffer)))
    } else {
        Err(Error::BadRequest)
    }
}

/// The method prefix, byte by byte.
pub proof fn lemma_method_prefix()
    ensures
        method_prefix() =~= seq![0x47u8, 0x45u8, 0x54u8, 0x20u8, 0x2fu8],
{
    reveal_strlit("GET /");
    is_ascii_spec_bytes("GET /");
    assert("GET /"@.len() == 5);
    assert(is_ascii("GET /"));
}

/// A buffer that holds the method prefix has exactly one path end.
pub proof fn lemma_path_end_unique(buffer: Seq<u8>, end: int)
    requires
        is_path_end(buffer, end),
    ensures
        path_end(buffer) == end,
{
    let other = path_end(buffer);
    assert(is_path_end(buffer, other));
    if other < end {
        assert(is_terminator(buffer[other]));
    } else if end < other {
        assert(is_terminator(buffer[end]));
    }
}

/// A buffer that holds the method prefix has a path end, and it lies at or
/// behind every position up to which no terminator stands.
pub proof fn lemma_path_end_exists(buffer: Seq<u8>, from: int)
    requires
        START_OF_PATH < from <= buffer.len(),
        no_terminator(buffer, START_OF_PATH + 1, from),
    ensures
        is_path_end(buffer, path_end(buffer)),
        from <= path_end(buffer),
    decreases buffer.len() - from,
{
    if from == buffer.len() {
        assert(is_path_end(buffer, from));
        lemma_path_end_unique(buffer, from);
    } else if is_terminator(buffer[from]) {
        assert(is_path_end(buffer, from));
        lemma_path_end_unique(buffer, from);
    } else {
        lemma_path_end_exists(buffer, from + 1);
    }
}

/// Calls `core::str::from_utf8`. Nothing is proved of this function: its
/// contract claims that the text is there exactly when the bytes are
/// well-formed UTF-8, and that the text's encoding is then the bytes
/// themselves.
#[verifier::external_body]
fn utf8_text(bytes: &[u8]) -> (text: Option<&str>)
    ensures
        text is Some <==> valid_utf8(bytes@),
        text matches Some(s) ==> s.spec_bytes() == bytes@,
{
    core::str::from_utf8(bytes).ok()
}

/// Parses a raw request buffer into the request path.
///
/// The buffer must begin with `GET /`. The path runs from that slash up to
/// the first space, `?` or `#`, or to the end of the buffer where none
/// follows; a query string or fragment is cut off with the terminator. Two
/// dots side by side in the path, or a path that is not UTF-8, make the
/// request a bad one.
pub fn parse_request(buffer: &[u8]) -> (found: Result<&str, Error>)
    ensures
        match found {
            Ok(path) => parsed(buffer@) == Ok::<Seq<char>, Error>(path@)
                && path.spec_bytes() == path_bytes(buffer@),
            Err(e) => parsed(buffer@) == Err::<Seq<char>, Error>(e),
        },
{
    if !has_prefix(buffer, "GET /".as_bytes()) {
        return Err(Error::BadRequest);
    }
    proof {
        lemma_method_prefix();
        assert(buffer@[START_OF_PATH as int] == method_prefix()[START_OF_PATH as int]);
    }
    let mut end_of_path: usize = buffer.len();
    let mut last_byte_was_dot = false;
    let mut i: usize = START_OF_PATH + 1;
    while i < buffer.len()
        invariant_except_break
            START_OF_PATH < i <= buffer.len(),
            end_of_path == buffer.len(),
            no_terminator(buffer@, START_OF_PATH + 1, i as int),
        invariant
            buffer@.len() >= 5,
            buffer@[START_OF_PATH as int] == SLASH,
            START_OF_PATH < i <= buffer.len(),
            !has_double_dot(buffer@, START_OF_PATH as int, i as int),
            last_byte_was_dot == (buffer@[i - 1] == DOT),
        ensures
            is_path_end(buffer@, end_of_path as int),
            !has_double_dot(buffer@, START_OF_PATH as int, end_of_path as int),
        decreases buffer.len() - i,
    {
        let byte: u8 = buffer[i];
        if byte == DOT {
            if last_byte_was_dot {
                proof {
                    lemma_path_end_exists(buffer@, i + 1);
                    assert(buffer@[i - 1] == DOT && buffer@[i - 1 + 1] == DOT);
                }
                return Err(Error::BadRequest);
            }
            last_byte_was_dot = true;
        } else if byte == SPACE || byte == QUERY || byte == FRAGMENT {
            end_of_path = i;
            break;
        } else {
            last_byte_was_dot = false;
        }
        i += 1;
    }
    proof {
        lemma_path_end_unique(buffer@, end_of_path as int);
    }
    match utf8_text(&buffer[START_OF_PATH..end_of_path]) {
        Some(path) => {
            proof {
                encode_utf8_decode_utf8(path@);
            }
            Ok(path)
        },
        None => Err(Error::BadRequest),
    }
}

} // verus!
