//! One connection's cycle: read the request, drain what follows it, resolve
//! the path, and answer once.
//!
//! The cycle is a state machine. Whoever owns the socket performs each action
//! that the machine hands out and reports what came of it as an event; the
//! machine decides everything else.

use vstd::prelude::*;
use vstd::string::*;
use crate::content_type::ContentType;
use crate::error::Error;
use crate::request::{parse_request, parsed};
use crate::resolve::{
    path_extension, resolution, resolve, target_of, target_path, Resolution, ResolutionView,
};
use crate::response::{Response, ResponseView};

verus! {

/// Where a connection stands in its cycle.
#[derive(Debug, PartialEq, Eq)]
pub enum State {
    /// Nothing has been read yet. A cycle begins here, with a read into the
    /// request buffer.
    AwaitingData,
    /// The request buffer is filled; what follows it on the socket is being
    /// read and thrown away.
    Draining,
    /// Responding: the request asks for `path`, which stands for `target`,
    /// and it is being found out whether `target` is a directory.
    Resolving { path: String, target: String },
    /// Responding: a file of the given content type is being read.
    Fetching { content_type: ContentType },
    /// The cycle is over and the connection is to be dropped.
    Closed,
}

/// What the owner of the socket reports back.
#[derive(Debug, PartialEq, Eq)]
pub enum Event {
    /// A read returned: `None` for an error, such as a read that would
    /// block, else the number of bytes read.
    Read(Option<usize>),
    /// Whether the target is a directory.
    Probed(bool),
    /// The whole content of the file, or `None` where it cannot be read.
    Loaded(Option<Vec<u8>>),
}

/// What the owner of the socket is asked to do next.
#[derive(Debug, PartialEq, Eq)]
pub enum Action {
    /// Read once more from the socket, into the trash buffer.
    ReadTrash,
    /// Find out whether `target` is a directory.
    Probe { target: String },
    /// Read the whole of `file`.
    ReadFile { file: String },
    /// Send the response, then drop the connection.
    Send { response: Response },
    /// Leave the connection in the live set and read its request again in
    /// a later pass.
    Keep,
    /// Drop the connection without a response.
    Drop,
}

/// A state as a mathematical value.
pub enum StateView {
    AwaitingData,
    Draining,
    Resolving { path: Seq<char>, target: Seq<char> },
    Fetching { content_type: ContentType },
    Closed,
}

/// An event as a mathematical value.
pub enum EventView {
    Read(Option<usize>),
    Probed(bool),
    Loaded(Option<Seq<u8>>),
}

/// An action as a mathematical value.
pub enum ActionView {
    ReadTrash,
    Probe { target: Seq<char> },
    ReadFile { file: Seq<char> },
    Send { response: ResponseView },
    Keep,
    Drop,
}

impl View for State {
    type V = StateView;

    open spec fn view(&self) -> StateView {
        match *self {
            State::AwaitingData => StateView::AwaitingData,
            State::Draining => StateView::Draining,
            State::Resolving { path, target } => StateView::Resolving {
                path: path@,
                target: target@,
            },
            State::Fetching { content_type } => StateView::Fetching { content_type },
            State::Closed => StateView::Closed,
        }
    }
}

impl View for Event {
    type V = EventView;

    open spec fn view(&self) -> EventView {
        match *self {
            Event::Read(count) => EventView::Read(count),
            Event::Probed(is_directory) => EventView::Probed(is_directory),
            Event::Loaded(Some(content)) => EventView::Loaded(Some(content@)),
            Event::Loaded(None) => EventView::Loaded(None),
        }
    }
}

impl View for Action {
    type V = ActionView;

    open spec fn view(&self) -> ActionView {
        match *self {
            Action::ReadTrash => ActionView::ReadTrash,
            Action::Probe { target } => ActionView::Probe { target: target@ },
            Action::ReadFile { file } => ActionView::ReadFile { file: file@ },
            Action::Send { response } => ActionView::Send { response: response@ },
            Action::Keep => ActionView::Keep,
            Action::Drop => ActionView::Drop,
        }
    }
}

/// The end of a cycle without a response.
pub open spec fn dropped() -> (StateView, ActionView) {
    (StateView::Closed, ActionView::Drop)
}

/// The end of a cycle with a response.
pub open spec fn answered(response: ResponseView) -> (StateView, ActionView) {
    (StateView::Closed, ActionView::Send { response })
}

/// After a read that brought data: more is read into the trash buffer,
/// unless a shutdown was asked for, which ends the cycle at once.
pub open spec fn drained_on(running: bool) -> (StateView, ActionView) {
    if running {
        (StateView::Draining, ActionView::ReadTrash)
    } else {
        dropped()
    }
}

/// After the drain: a request that parses goes on to be resolved under
/// `root`, any other is answered as a bad request.
pub open spec fn planned(root: Seq<char>, request: Seq<u8>) -> (StateView, ActionView) {
    match parsed(request) {
        Ok(path) => (
            StateView::Resolving { path, target: target_of(root, path) },
            ActionView::Probe { target: target_of(root, path) },
        ),
        Err(error) => answered(ResponseView::of_error(error)),
    }
}

/// After the probe: a redirect or a refusal is sent, a file is read.
pub open spec fn resolved(found: ResolutionView) -> (StateView, ActionView) {
    match found {
        ResolutionView::Redirect { location } => answered(ResponseView::Redirect { location }),
        ResolutionView::Read { file, content_type } => (
            StateView::Fetching { content_type },
            ActionView::ReadFile { file },
        ),
        ResolutionView::Refuse { error } => answered(ResponseView::of_error(error)),
    }
}

/// After the file was read: its content is sent, or it is not found.
pub open spec fn loaded(content_type: ContentType, content: Option<Seq<u8>>) -> (
    StateView,
    ActionView,
) {
    match content {
        Some(bytes) => answered(ResponseView::Content { content_type, content: bytes }),
        None => answered(ResponseView::of_error(Error::NotFound)),
    }
}

/// The machine's one step: the state and action that follow `state` on
/// `event`.
///
/// `running` is the shutdown flag as it stands at this step, `root` the
/// public root, and `request` the whole request buffer. An event that does
/// not answer what the state asked for ends the cycle without a response.
pub open spec fn stepped(
    state: StateView,
    event: EventView,
    running: bool,
    root: Seq<char>,
    request: Seq<u8>,
) -> (StateView, ActionView) {
    match state {
        StateView::AwaitingData => match event {
            EventView::Read(None) => (StateView::AwaitingData, ActionView::Keep),
            EventView::Read(Some(count)) => if count == 0 {
                dropped()
            } else {
                drained_on(running)
            },
            _ => dropped(),
        },
        StateView::Draining => match event {
            EventView::Read(None) => planned(root, request),
            EventView::Read(Some(count)) => if count == 0 {
                dropped()
            } else {
                drained_on(running)
            },
            _ => dropped(),
        },
        StateView::Resolving { path, target } => match event {
            EventView::Probed(is_directory) => resolved(
                resolution(path, target, is_directory, path_extension(target)),
            ),
            _ => dropped(),
        },
        StateView::Fetching { content_type } => match event {
            EventView::Loaded(content) => loaded(content_type, content),
            _ => dropped(),
        },
        StateView::Closed => dropped(),
    }
}

impl State {
    /// The state in which every cycle begins.
    pub fn new() -> (state: State)
        ensures
            state@ == StateView::AwaitingData,
    {
        State::AwaitingData
    }

    /// Whether the cycle is over.
    pub fn is_closed(&self) -> (closed: bool)
        ensures
            closed == (self@ is Closed),
    {
        match self {
            State::Closed => true,
            _ => false,
        }
    }

    /// Takes one step: from this state and `event` to the next state and
    /// the action that the owner of the socket performs next.
    pub fn step(self, event: Event, running: bool, root: &str, request: &[u8]) -> (next: (
        State,
        Action,
    ))
        ensures
            (next.0@, next.1@) == stepped(self@, event@, running, root@, request@),
    {
        match self {
            State::AwaitingData => match event {
                Event::Read(None) => (State::AwaitingData, Action::Keep),
                Event::Read(Some(count)) => after_data(count, running),
                _ => (State::Closed, Action::Drop),
            },
            State::Draining => match event {
                Event::Read(None) => plan(root, request),
                Event::Read(Some(count)) => after_data(count, running),
                _ => (State::Closed, Action::Drop),
            },
            State::Resolving { path, target } => match event {
                Event::Probed(is_directory) => after_probe(
                    resolve(path.as_str(), target.as_str(), is_directory),
                ),
                _ => (State::Closed, Action::Drop),
            },
            State::Fetching { content_type } => match event {
                Event::Loaded(content) => after_load(content_type, content),
                _ => (State::Closed, Action::Drop),
            },
            State::Closed => (State::Closed, Action::Drop),
        }
    }
}

/// The step that follows a read of `count` bytes.
fn after_data(count: usize, running: bool) -> (next: (State, Action))
    ensures
        (next.0@, next.1@) == if count == 0 {
            dropped()
        } else {
            drained_on(running)
        },
{
    if count == 0 || !running {
        (State::Closed, Action::Drop)
    } else {
        (State::Draining, Action::ReadTrash)
    }
}

/// Plans the answer to a request whose trailing bytes have been drained:
/// parses the request buffer and, where it holds a path, asks whether the
/// path's target under `root` is a directory.
pub fn plan(root: &str, request: &[u8]) -> (next: (State, Action))
    ensures
        (next.0@, next.1@) == planned(root@, request@),
{
    match parse_request(request) {
        Ok(path) => {
            let target = target_path(root, path);
            let probe = target.clone();
            (State::Resolving { path: path.to_owned(), target }, Action::Probe { target: probe })
        },
        Err(error) => (State::Closed, Action::Send { response: Response::from_error(error) }),
    }
}

/// The step that follows a resolution.
pub fn after_probe(found: Resolution) -> (next: (State, Action))
    ensures
        (next.0@, next.1@) == resolved(found@),
{
    match found {
        Resolution::Redirect { location } => (
            State::Closed,
            Action::Send { response: Response::Redirect { location } },
        ),
        Resolution::Read { file, content_type } => (
            State::Fetching { content_type },
            Action::ReadFile { file },
        ),
        Resolution::Refuse { error } => (
            State::Closed,
            Action::Send { response: Response::from_error(error) },
        ),
    }
}

/// The step that follows the reading of a file.
pub fn after_load(content_type: ContentType, content: Option<Vec<u8>>) -> (next: (State, Action))
    ensures
        (next.0@, next.1@) == loaded(content_type, content_view(content)),
{
    match content {
        Some(bytes) => (
            State::Closed,
            Action::Send { response: Response::Content { content_type, content: bytes } },
        ),
        None => (
            State::Closed,
            Action::Send { response: Response::from_error(Error::NotFound) },
        ),
    }
}

/// The bytes of a file's content that may be absent.
pub open spec fn content_view(content: Option<Vec<u8>>) -> Option<Seq<u8>> {
    match content {
        Some(bytes) => Some(bytes@),
        None => None,
    }
}

} // verus!
