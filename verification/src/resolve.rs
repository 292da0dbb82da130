//! Path resolution: from a request path to a redirect, a file to read, or a
//! refusal, once it is known whether the path names a directory.

use vstd::prelude::*;
use vstd::string::*;
use crate::content_type::ContentType;
use crate::error::Error;
use crate::text::{ends_with_slash, has_trailing_slash, optional_text};

verus! {

/// The extension that the standard library finds in a path: what
/// `std::path::Path::extension` returns for it, as text. It depends on the
/// path alone, by the path rules of the platform the crate is built for.
pub uninterp spec fn path_extension(path: Seq<char>) -> Option<Seq<char>>;

/// Calls `std::path::Path::extension` on `path`, taken as a path by
/// `Path::new`, and hands the extension back as text by `OsStr::to_str`.
/// Nothing is proved of this function: its contract only gives the result
/// its name, `path_extension`, and says nothing of what the extension is.
#[verifier::external_body]
fn extension_of(path: &str) -> (ext: Option<&str>)
    ensures
        optional_text(ext) == path_extension(path@),
{
    match std::path::Path::new(path).extension() {
        Some(ext) => ext.to_str(),
        None => None,
    }
}

/// The public root that is chosen at startup: the directory `public` where
/// there is one, else the current directory.
pub open spec fn root_for(public_is_directory: bool) -> Seq<char> {
    if public_is_directory {
        "public"@
    } else {
        "."@
    }
}

/// Chooses the public root, given whether `public` is a directory.
pub fn choose_root(public_is_directory: bool) -> (root: &'static str)
    ensures
        root@ == root_for(public_is_directory),
{
    if public_is_directory {
        "public"
    } else {
        "."
    }
}

/// The place in the file system that a request path stands for: the root
/// and the path, one behind the other, with nothing normalized.
pub open spec fn target_of(root: Seq<char>, path: Seq<char>) -> Seq<char> {
    root + path
}

/// The index file of a directory whose path ends with a slash.
pub open spec fn index_of(target: Seq<char>) -> Seq<char> {
    target + "index.html"@
}

/// Where a client that asked for a directory without a trailing slash is
/// sent: the same path with the slash.
pub open spec fn with_slash(path: Seq<char>) -> Seq<char> {
    path + "/"@
}

/// What becomes of a request once its target has been looked at.
#[derive(Debug, PartialEq, Eq)]
pub enum Resolution {
    /// The client is sent to another location.
    Redirect { location: String },
    /// The file is to be read and sent with the given content type.
    Read { file: String, content_type: ContentType },
    /// The request is refused.
    Refuse { error: Error },
}

/// A resolution as a mathematical value.
pub enum ResolutionView {
    Redirect { location: Seq<char> },
    Read { file: Seq<char>, content_type: ContentType },
    Refuse { error: Error },
}

impl View for Resolution {
    type V = ResolutionView;

    open spec fn view(&self) -> ResolutionView {
        match *self {
            Resolution::Redirect { location } => ResolutionView::Redirect { location: location@ },
            Resolution::Read { file, content_type } => ResolutionView::Read {
                file: file@,
                content_type,
            },
            Resolution::Refuse { error } => ResolutionView::Refuse { error },
        }
    }
}

/// How the request path `path`, standing for `target`, is resolved.
///
/// A directory asked for without a trailing slash gives a redirect to the
/// path with the slash. A directory asked for with the slash gives its index
/// file, which is HTML. Anything else is taken for a file, whose content type
/// goes by `extension`; a file whose type is not served is refused.
pub open spec fn resolution(
    path: Seq<char>,
    target: Seq<char>,
    is_directory: bool,
    extension: Option<Seq<char>>,
) -> ResolutionView {
    if is_directory {
        if !ends_with_slash(path) {
            ResolutionView::Redirect { location: with_slash(path) }
        } else {
            ResolutionView::Read { file: index_of(target), content_type: ContentType::Html }
        }
    } else {
        match ContentType::of_optional_extension(extension) {
            Some(content_type) => ResolutionView::Read { file: target, content_type },
            None => ResolutionView::Refuse { error: Error::UnsupportedType },
        }
    }
}

/// The place in the file system that a request path stands for.
pub fn target_path(root: &str, path: &str) -> (target: String)
    ensures
        target@ == target_of(root@, path@),
{
    let mut target = root.to_owned();
    target.append(path);
    target
}

/// Resolves a request path whose target has been looked at, given the
/// extension found in the target.
pub fn resolve_with(path: &str, target: &str, is_directory: bool, extension: Option<&str>) -> (found:
    Resolution)
    ensures
        found@ == resolution(path@, target@, is_directory, optional_text(extension)),
{
    if is_directory {
        if !has_trailing_slash(path) {
            let mut location = path.to_owned();
            location.append("/");
            Resolution::Redirect { location }
        } else {
            let mut file = target.to_owned();
            file.append("index.html");
            Resolution::Read { file, content_type: ContentType::Html }
        }
    } else {
        match ContentType::from_optional_extension(extension) {
            Ok(content_type) => Resolution::Read { file: target.to_owned(), content_type },
            Err(error) => Resolution::Refuse { error },
        }
    }
}

/// Resolves a request path whose target has been looked at. The extension
/// is the one that the standard library finds in the target.
pub fn resolve(path: &str, target: &str, is_directory: bool) -> (found: Resolution)
    ensures
        found@ == resolution(path@, target@, is_directory, path_extension(target@)),
{
    if is_directory {
        resolve_with(path, target, true, None)
    } else {
        resolve_with(path, target, false, extension_of(target))
    }
}

} // verus!
