//! The content types that are served, and the extensions that select them.

use vstd::prelude::*;
use crate::error::Error;
use crate::text::{optional_text, same_text};

verus! {

/// A content type that the server hands out.
#[derive(Clone, Copy, Debug, PartialEq, Eq, Structural)]
pub enum ContentType {
    Html,
    Css,
    JavaScript,
    Svg,
    Woff2,
}

impl ContentType {
    /// The value of the `Content-Type` header.
    pub open spec fn name(self) -> Seq<char> {
        match self {
            ContentType::Html => "text/html"@,
            ContentType::Css => "text/css"@,
            ContentType::JavaScript => "application/javascript"@,
            ContentType::Svg => "image/svg+xml"@,
            ContentType::Woff2 => "font/woff2"@,
        }
    }

    /// The content type that the extension `ext` selects, if any. The match
    /// is exact: case counts, and nothing is trimmed.
    pub open spec fn of_extension(ext: Seq<char>) -> Option<ContentType> {
        if ext == "html"@ {
            Some(ContentType::Html)
        } else if ext == "css"@ {
            Some(ContentType::Css)
        } else if ext == "js"@ {
            Some(ContentType::JavaScript)
        } else if ext == "svg"@ {
            Some(ContentType::Svg)
        } else if ext == "woff2"@ {
            Some(ContentType::Woff2)
        } else {
            None
        }
    }

    /// The content type of a file without regard to how its extension was
    /// found: none where the file has no extension.
    pub open spec fn of_optional_extension(ext: Option<Seq<char>>) -> Option<ContentType> {
        match ext {
            Some(e) => Self::of_extension(e),
            None => None,
        }
    }

    /// The value of the `Content-Type` header.
    pub fn as_str(&self) -> (text: &'static str)
        ensures
            text@ == self.name(),
    {
        match self {
            ContentType::Html => "text/html",
            ContentType::Css => "text/css",
            ContentType::JavaScript => "application/javascript",
            ContentType::Svg => "image/svg+xml",
            ContentType::Woff2 => "font/woff2",
        }
    }

    /// Looks an extension up in the table of served types. An extension that
    /// is not in the table is an unsupported type.
    pub fn from_extension(ext: &str) -> (found: Result<ContentType, Error>)
        ensures
            match found {
                Ok(content_type) => Self::of_extension(ext@) == Some(content_type),
                Err(e) => e == Error::UnsupportedType && Self::of_extension(ext@) is None,
            },
    {
        if same_text(ext, "html") {
            Ok(ContentType::Html)
        } else if same_text(ext, "css") {
            Ok(ContentType::Css)
        } else if same_text(ext, "js") {
            Ok(ContentType::JavaScript)
        } else if same_text(ext, "svg") {
            Ok(ContentType::Svg)
        } else if same_text(ext, "woff2") {
            Ok(ContentType::Woff2)
        } else {
            Err(Error::UnsupportedType)
        }
    }

    /// The content type of a file whose extension, if it has one, is `ext`.
    /// A file without an extension has an unsupported type.
    pub fn from_optional_extension(ext: Option<&str>) -> (found: Result<ContentType, Error>)
        ensures
            match found {
                Ok(content_type) => Self::of_optional_extension(optional_text(ext)) == Some(
                    content_type,
                ),
                Err(e) => e == Error::UnsupportedType && Self::of_optional_extension(
                    optional_text(ext),
                ) is None,
            },
    {
        match ext {
            Some(e) => Self::from_extension(e),
            None => Err(Error::UnsupportedType),
        }
    }
}

} // verus!
