//! The server as a whole: what a request is answered with, given what the
//! file system holds, and the guarantees that follow.

use vstd::prelude::*;
use vstd::string::*;
use crate::connection::{answered, dropped, planned, stepped, ActionView, EventView, StateView};
use crate::content_type::ContentType;
use crate::error::Error;
use crate::request::{
    has_double_dot, lemma_path_end_exists, method_prefix, no_terminator, parsed, path_end, DOT,
    START_OF_PATH,
};
use crate::resolve::{
    index_of, path_extension, resolution, target_of, with_slash, ResolutionView,
};
use crate::response::{content_text, redirect_text, simple_text, ResponseView};
use crate::text::{decimal, ends_with_slash};

verus! {

/// What the file system holds, as far as the server looks at it.
pub struct Files {
    /// The paths that name a directory.
    pub directories: Set<Seq<char>>,
    /// The paths that can be read as a file, each with its content.
    pub contents: Map<Seq<char>, Seq<u8>>,
}

impl Files {
    /// Whether `path` names a directory.
    pub open spec fn is_directory(self, path: Seq<char>) -> bool {
        self.directories.contains(path)
    }

    /// The content of the file at `path`, if it can be read.
    pub open spec fn read(self, path: Seq<char>) -> Option<Seq<u8>> {
        if self.contents.dom().contains(path) {
            Some(self.contents[path])
        } else {
            None
        }
    }

    /// The event that answers `action` truthfully. Only a probe and a read
    /// of a file are answered from the file system.
    pub open spec fn reply(self, action: ActionView) -> EventView {
        match action {
            ActionView::Probe { target } => EventView::Probed(self.is_directory(target)),
            ActionView::ReadFile { file } => EventView::Loaded(self.read(file)),
            _ => EventView::Read(None),
        }
    }
}

/// The response to the request in `request`, served from under `root`.
pub open spec fn served(root: Seq<char>, request: Seq<u8>, files: Files) -> ResponseView {
    match parsed(request) {
        Err(error) => ResponseView::of_error(error),
        Ok(path) => {
            let target = target_of(root, path);
            match resolution(path, target, files.is_directory(target), path_extension(target)) {
                ResolutionView::Redirect { location } => ResponseView::Redirect { location },
                ResolutionView::Refuse { error } => ResponseView::of_error(error),
                ResolutionView::Read { file, content_type } => match files.read(file) {
                    Some(content) => ResponseView::Content { content_type, content },
                    None => ResponseView::of_error(Error::NotFound),
                },
            }
        },
    }
}

/// Whether the machine asks the file system something with `action`.
pub open spec fn asks(action: ActionView) -> bool {
    action is Probe || action is ReadFile
}

/// The state and action that a drained connection ends with, when each
/// question that the machine asks is answered from `files`. The machine asks
/// at most twice.
pub open spec fn settled(root: Seq<char>, request: Seq<u8>, files: Files, running: bool) -> (
    StateView,
    ActionView,
) {
    let first = stepped(StateView::Draining, EventView::Read(None), running, root, request);
    if !asks(first.1) {
        first
    } else {
        let second = stepped(first.0, files.reply(first.1), running, root, request);
        if !asks(second.1) {
            second
        } else {
            stepped(second.0, files.reply(second.1), running, root, request)
        }
    }
}

/// A drained connection is answered exactly once, with the response that
/// the request is served with, and is closed by it, whatever the shutdown
/// flag says meanwhile.
pub proof fn lemma_cycle_serves(root: Seq<char>, request: Seq<u8>, files: Files, running: bool)
    ensures
        settled(root, request, files, running) == answered(served(root, request, files)),
{
}

/// The machine answers only as it closes the connection, and a closed
/// connection is never answered again: no cycle sends two responses.
pub proof fn lemma_response_closes(
    state: StateView,
    event: EventView,
    running: bool,
    root: Seq<char>,
    request: Seq<u8>,
)
    ensures
        stepped(state, event, running, root, request).1 is Send ==> stepped(
            state,
            event,
            running,
            root,
            request,
        ).0 is Closed,
        state is Closed ==> stepped(state, event, running, root, request) == dropped(),
{
}

/// A connection whose peer has closed it, before the request or during
/// the drain, is dropped without a response.
pub proof fn lemma_closed_peer_is_dropped(
    state: StateView,
    running: bool,
    root: Seq<char>,
    request: Seq<u8>,
)
    requires
        state is AwaitingData || state is Draining,
    ensures
        stepped(state, EventView::Read(Some(0)), running, root, request) == dropped(),
{
}

/// A shutdown that is asked for while data still arrives ends the cycle
/// without a response.
pub proof fn lemma_shutdown_aborts_drain(
    state: StateView,
    count: usize,
    root: Seq<char>,
    request: Seq<u8>,
)
    requires
        state is AwaitingData || state is Draining,
    ensures
        stepped(state, EventView::Read(Some(count)), false, root, request) == dropped(),
{
}

/// A connection whose first read fails stays as it is, to be read again.
pub proof fn lemma_failed_first_read_keeps(running: bool, root: Seq<char>, request: Seq<u8>)
    ensures
        stepped(StateView::AwaitingData, EventView::Read(None), running, root, request) == (
            StateView::AwaitingData,
            ActionView::Keep,
        ),
{
}

/// A request that does not begin with `GET /` is answered with 400.
pub proof fn lemma_wrong_method_is_bad_request(root: Seq<char>, request: Seq<u8>, files: Files)
    requires
        !method_prefix().is_prefix_of(request),
    ensures
        parsed(request) == Err::<Seq<char>, Error>(Error::BadRequest),
        served(root, request, files) == (ResponseView::Simple { code: 400 }),
        planned(root, request) == answered(ResponseView::Simple { code: 400 }),
{
}

/// A request with two dots side by side in its path is answered with 400,
/// wherever in the path they stand: at `at` and `at + 1`, with no terminator
/// before them.
pub proof fn lemma_double_dot_is_bad_request(
    root: Seq<char>,
    request: Seq<u8>,
    files: Files,
    at: int,
)
    requires
        START_OF_PATH <= at,
        at + 1 < request.len(),
        request[at] == DOT,
        request[at + 1] == DOT,
        no_terminator(request, START_OF_PATH + 1, at),
    ensures
        parsed(request) == Err::<Seq<char>, Error>(Error::BadRequest),
        served(root, request, files) == (ResponseView::Simple { code: 400 }),
        planned(root, request) == answered(ResponseView::Simple { code: 400 }),
{
    assert(no_terminator(request, START_OF_PATH + 1, at + 2));
    lemma_path_end_exists(request, at + 2);
    assert(has_double_dot(request, START_OF_PATH as int, path_end(request)));
}

/// A request for a file that is there, and whose extension selects a
/// content type, is answered with 200, with the file's exact length in the
/// head and the file's bytes behind it.
pub proof fn lemma_file_is_served(
    root: Seq<char>,
    request: Seq<u8>,
    files: Files,
    path: Seq<char>,
    content_type: ContentType,
    content: Seq<u8>,
)
    requires
        parsed(request) == Ok::<Seq<char>, Error>(path),
        !files.is_directory(target_of(root, path)),
        ContentType::of_optional_extension(path_extension(target_of(root, path))) == Some(
            content_type,
        ),
        files.read(target_of(root, path)) == Some(content),
    ensures
        served(root, request, files) == (ResponseView::Content { content_type, content }),
        served(root, request, files).status() == 200,
        served(root, request, files).head() == content_text(content_type.name(), content.len()),
        served(root, request, files).body() == content,
{
}

/// A request for a directory without a trailing slash is answered with a
/// redirect to the same path with the slash, and the machine sends it
/// without asking for any file.
pub proof fn lemma_directory_is_redirected(
    root: Seq<char>,
    request: Seq<u8>,
    files: Files,
    path: Seq<char>,
    running: bool,
)
    requires
        parsed(request) == Ok::<Seq<char>, Error>(path),
        files.is_directory(target_of(root, path)),
        !ends_with_slash(path),
    ensures
        served(root, request, files) == (ResponseView::Redirect { location: with_slash(path) }),
        served(root, request, files).status() == 308,
        served(root, request, files).head() == redirect_text(with_slash(path)),
        stepped(
            StateView::Resolving { path, target: target_of(root, path) },
            EventView::Probed(true),
            running,
            root,
            request,
        ) == answered(ResponseView::Redirect { location: with_slash(path) }),
{
}

/// A request for a directory with a trailing slash is answered from the
/// directory's index file: the machine asks for that file, sends it as HTML
/// where it is there, and answers 404 where it is not.
pub proof fn lemma_directory_index_is_served(
    root: Seq<char>,
    request: Seq<u8>,
    files: Files,
    path: Seq<char>,
    running: bool,
)
    requires
        parsed(request) == Ok::<Seq<char>, Error>(path),
        files.is_directory(target_of(root, path)),
        ends_with_slash(path),
    ensures
        stepped(
            StateView::Resolving { path, target: target_of(root, path) },
            EventView::Probed(true),
            running,
            root,
            request,
        ) == (
            StateView::Fetching { content_type: ContentType::Html },
            ActionView::ReadFile { file: index_of(target_of(root, path)) },
        ),
        served(root, request, files) == match files.read(index_of(target_of(root, path))) {
            Some(content) => ResponseView::Content { content_type: ContentType::Html, content },
            None => ResponseView::Simple { code: 404 },
        },
{
}

/// A request for a file whose extension selects no content type is
/// answered with 404, whether or not the file is there, and the machine
/// answers without asking for the file.
pub proof fn lemma_unsupported_type_is_not_found(
    root: Seq<char>,
    request: Seq<u8>,
    files: Files,
    path: Seq<char>,
    running: bool,
)
    requires
        parsed(request) == Ok::<Seq<char>, Error>(path),
        !files.is_directory(target_of(root, path)),
        ContentType::of_optional_extension(path_extension(target_of(root, path))) is None,
    ensures
        served(root, request, files) == (ResponseView::Simple { code: 404 }),
        stepped(
            StateView::Resolving { path, target: target_of(root, path) },
            EventView::Probed(false),
            running,
            root,
            request,
        ) == answered(ResponseView::Simple { code: 404 }),
{
}

/// The two responses without content, letter for letter.
pub proof fn lemma_simple_texts()
    ensures
        simple_text(400) == "HTTP/1.1 400 Bad Request\r\n\r\n"@,
        simple_text(404) == "HTTP/1.1 404 Not Found\r\n\r\n"@,
{
    reveal_strlit("HTTP/1.1 ");
    reveal_strlit(" ");
    reveal_strlit("Bad Request");
    reveal_strlit("Not Found");
    reveal_strlit("\r\n\r\n");
    reveal_strlit("HTTP/1.1 400 Bad Request\r\n\r\n");
    reveal_strlit("HTTP/1.1 404 Not Found\r\n\r\n");
    reveal_with_fuel(decimal, 3);
    assert(decimal(400) =~= seq!['4', '0', '0']);
    assert(decimal(404) =~= seq!['4', '0', '4']);
    assert(simple_text(400) =~= "HTTP/1.1 400 Bad Request\r\n\r\n"@);
    assert(simple_text(404) =~= "HTTP/1.1 404 Not Found\r\n\r\n"@);
}

} // verus!
