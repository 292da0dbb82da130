//! The three shapes of a response, and the text that each is sent as.

use vstd::prelude::*;
use vstd::string::*;
use vstd::utf8::*;
use crate::content_type::ContentType;
use crate::error::Error;
use crate::text::{decimal, to_decimal};

verus! {

/// The reason phrase that goes with a status code: one for each of the two
/// codes that the server answers with, none for any other.
pub open spec fn reason_text(code: u16) -> Seq<char> {
    if code == 400 {
        "Bad Request"@
    } else if code == 404 {
        "Not Found"@
    } else {
        ""@
    }
}

/// A response without content: the status line and an empty line.
pub open spec fn simple_text(code: u16) -> Seq<char> {
    "HTTP/1.1 "@ + decimal(code as nat) + " "@ + reason_text(code) + "\r\n\r\n"@
}

/// A permanent redirect to `location`.
pub open spec fn redirect_text(location: Seq<char>) -> Seq<char> {
    "HTTP/1.1 308 Permanent Redirect\r\nLocation: "@ + location + "\r\n\r\n"@
}

/// The status line and headers that go before `content_length` bytes of
/// content of the given type.
pub open spec fn content_text(content_type: Seq<char>, content_length: nat) -> Seq<char> {
    "HTTP/1.1 200 OK\r\nContent-Length: "@ + decimal(content_length) + "\r\nContent-Type: "@
        + content_type + "\r\n\r\n"@
}

/// The reason phrase that goes with a status code.
pub fn reason_phrase(code: u16) -> (text: &'static str)
    ensures
        text@ == reason_text(code),
{
    if code == 400 {
        "Bad Request"
    } else if code == 404 {
        "Not Found"
    } else {
        ""
    }
}

/// Writes a response without content.
pub fn response_simple(code: u16) -> (text: String)
    ensures
        text@ == simple_text(code),
{
    let number = to_decimal(code as usize);
    let mut text = "HTTP/1.1 ".to_owned();
    text.append(number.as_str());
    text.append(" ");
    text.append(reason_phrase(code));
    text.append("\r\n\r\n");
    text
}

/// Writes a permanent redirect to `location`.
pub fn response_redirect(location: &str) -> (text: String)
    ensures
        text@ == redirect_text(location@),
{
    let mut text = "HTTP/1.1 308 Permanent Redirect\r\nLocation: ".to_owned();
    text.append(location);
    text.append("\r\n\r\n");
    text
}

/// Writes the status line and headers of a response with content. The
/// content itself follows them on the wire.
pub fn response_content(content_type: &str, content_length: usize) -> (text: String)
    ensures
        text@ == content_text(content_type@, content_length as nat),
{
    let number = to_decimal(content_length);
    let mut text = "HTTP/1.1 200 OK\r\nContent-Length: ".to_owned();
    text.append(number.as_str());
    text.append("\r\nContent-Type: ");
    text.append(content_type);
    text.append("\r\n\r\n");
    text
}

/// What the server answers a request with.
#[derive(Debug, PartialEq, Eq)]
pub enum Response {
    /// A status and nothing else.
    Simple { code: u16 },
    /// A permanent redirect.
    Redirect { location: String },
    /// A file's content.
    Content { content_type: ContentType, content: Vec<u8> },
}

/// A response as a mathematical value.
pub enum ResponseView {
    Simple { code: u16 },
    Redirect { location: Seq<char> },
    Content { content_type: ContentType, content: Seq<u8> },
}

impl View for Response {
    type V = ResponseView;

    open spec fn view(&self) -> ResponseView {
        match *self {
            Response::Simple { code } => ResponseView::Simple { code },
            Response::Redirect { location } => ResponseView::Redirect { location: location@ },
            Response::Content { content_type, content } => ResponseView::Content {
                content_type,
                content: content@,
            },
        }
    }
}

impl ResponseView {
    /// The response that answers an error.
    pub open spec fn of_error(error: Error) -> ResponseView {
        ResponseView::Simple { code: error.code() }
    }

    /// The status code on the status line.
    pub open spec fn status(self) -> u16 {
        match self {
            ResponseView::Simple { code } => code,
            ResponseView::Redirect { .. } => 308,
            ResponseView::Content { .. } => 200,
        }
    }

    /// The status line and headers, up to and with the empty line.
    pub open spec fn head(self) -> Seq<char> {
        match self {
            ResponseView::Simple { code } => simple_text(code),
            ResponseView::Redirect { location } => redirect_text(location),
            ResponseView::Content { content_type, content } => content_text(
                content_type.name(),
                content.len(),
            ),
        }
    }

    /// The bytes that follow the head: the content, where there is any.
    pub open spec fn body(self) -> Seq<u8> {
        match self {
            ResponseView::Content { content, .. } => content,
            _ => Seq::empty(),
        }
    }

    /// The response as it goes over the wire.
    pub open spec fn wire(self) -> Seq<u8> {
        encode_utf8(self.head()) + self.body()
    }
}

impl Response {
    /// The response that answers an error.
    pub fn from_error(error: Error) -> (response: Response)
        ensures
            response@ == ResponseView::of_error(error),
    {
        Response::Simple { code: error.status_code() }
    }

    /// The status code on the status line.
    pub fn status(&self) -> (code: u16)
        ensures
            code == self@.status(),
    {
        match self {
            Response::Simple { code } => *code,
            Response::Redirect { .. } => 308,
            Response::Content { .. } => 200,
        }
    }

    /// The status line and headers, up to and with the empty line.
    pub fn head(&self) -> (text: String)
        ensures
            text@ == self@.head(),
    {
        match self {
            Response::Simple { code } => response_simple(*code),
            Response::Redirect { location } => response_redirect(location.as_str()),
            Response::Content { content_type, content } => response_content(
                content_type.as_str(),
                content.len(),
            ),
        }
    }

    /// The bytes that follow the head: the content, where there is any.
    pub fn body(&self) -> (bytes: &[u8])
        ensures
            bytes@ == self@.body(),
    {
        match self {
            Response::Content { content, .. } => content.as_slice(),
            _ => &[],
        }
    }

    /// The response as it goes over the wire.
    pub fn to_bytes(&self) -> (bytes: Vec<u8>)
        ensures
            bytes@ == self@.wire(),
    {
        let head = self.head();
        let mut bytes = head.as_str().as_bytes_vec();
        bytes.extend_from_slice(self.body());
        bytes
    }
}

} // verus!
