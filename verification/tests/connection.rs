use std::collections::{HashMap, HashSet};

use static_httpd::connection::{after_load, after_probe, plan, Action, Event, State};
use static_httpd::content_type::ContentType;
use static_httpd::error::Error;
use static_httpd::resolve::Resolution;
use static_httpd::response::Response;

/// A file system in memory.
struct Disk {
    directories: HashSet<String>,
    files: HashMap<String, Vec<u8>>,
    probes: Vec<String>,
    reads: Vec<String>,
}

impl Disk {
    fn new() -> Disk {
        Disk {
            directories: HashSet::new(),
            files: HashMap::new(),
            probes: Vec::new(),
            reads: Vec::new(),
        }
    }

    fn directory(mut self, path: &str) -> Disk {
        self.directories.insert(String::from(path));
        self
    }

    fn file(mut self, path: &str, content: &[u8]) -> Disk {
        self.files.insert(String::from(path), content.to_vec());
        self
    }
}

/// Runs one cycle on a socket that delivers `request` in one read and then
/// has nothing more, and gives the last action.
fn serve(disk: &mut Disk, request: &[u8]) -> Action {
    let root = "public";
    let (mut state, mut action) = State::new().step(Event::Read(Some(request.len())), true, root, request);
    for _ in 0..8 {
        let event = match &action {
            Action::ReadTrash => Event::Read(None),
            Action::Probe { target } => {
                disk.probes.push(target.clone());
                Event::Probed(disk.directories.contains(target))
            }
            Action::ReadFile { file } => {
                disk.reads.push(file.clone());
                Event::Loaded(disk.files.get(file).cloned())
            }
            _ => {
                assert!(state.is_closed());
                return action;
            }
        };
        let next = state.step(event, true, root, request);
        state = next.0;
        action = next.1;
    }
    panic!("the cycle did not end");
}

fn sent(action: Action) -> Response {
    match action {
        Action::Send { response } => response,
        other => panic!("no response: {:?}", other),
    }
}

#[test]
fn serves_index_html() {
    let mut disk = Disk::new().directory("public").file("public/index.html", b"<h1>hi</h1>");
    let response = sent(serve(&mut disk, b"GET /index.html HTTP/1.1\r\n\r\n"));
    assert_eq!(
        response,
        Response::Content { content_type: ContentType::Html, content: b"<h1>hi</h1>".to_vec() }
    );
    assert_eq!(response.status(), 200);
    assert_eq!(
        response.head(),
        "HTTP/1.1 200 OK\r\nContent-Length: 11\r\nContent-Type: text/html\r\n\r\n"
    );
    assert_eq!(response.body(), b"<h1>hi</h1>");
    assert_eq!(disk.probes, vec!["public/index.html"]);
    assert_eq!(disk.reads, vec!["public/index.html"]);
}

#[test]
fn serves_directory_index() {
    let mut disk = Disk::new()
        .directory("public/assets/")
        .file("public/assets/index.html", b"<p>assets</p>");
    let response = sent(serve(&mut disk, b"GET /assets/ HTTP/1.1\r\n\r\n"));
    assert_eq!(
        response,
        Response::Content { content_type: ContentType::Html, content: b"<p>assets</p>".to_vec() }
    );
    assert_eq!(disk.probes, vec!["public/assets/"]);
    assert_eq!(disk.reads, vec!["public/assets/index.html"]);
}

#[test]
fn directory_without_index_is_not_found() {
    let mut disk = Disk::new().directory("public/empty/");
    let response = sent(serve(&mut disk, b"GET /empty/ HTTP/1.1\r\n\r\n"));
    assert_eq!(response, Response::Simple { code: 404 });
    assert_eq!(response.head(), "HTTP/1.1 404 Not Found\r\n\r\n");
    assert_eq!(disk.reads, vec!["public/empty/index.html"]);
}

#[test]
fn redirects_directory_without_slash() {
    let mut disk = Disk::new()
        .directory("public/assets")
        .file("public/assets/index.html", b"<p>assets</p>");
    let response = sent(serve(&mut disk, b"GET /assets HTTP/1.1\r\n\r\n"));
    assert_eq!(response, Response::Redirect { location: String::from("/assets/") });
    assert_eq!(response.status(), 308);
    assert_eq!(
        response.head(),
        "HTTP/1.1 308 Permanent Redirect\r\nLocation: /assets/\r\n\r\n"
    );
    assert!(response.body().is_empty());
    assert_eq!(disk.probes, vec!["public/assets"]);
    assert!(disk.reads.is_empty());
}

#[test]
fn redirect_drops_the_query_string() {
    let mut disk = Disk::new().directory("public/docs");
    let response = sent(serve(&mut disk, b"GET /docs?page=2 HTTP/1.1\r\n\r\n"));
    assert_eq!(response, Response::Redirect { location: String::from("/docs/") });
}

#[test]
fn parent_directory_is_a_bad_request() {
    let mut disk = Disk::new().file("public/../secret.txt", b"secret").file("secret.txt", b"secret");
    let response = sent(serve(&mut disk, b"GET /../secret.txt HTTP/1.1\r\n\r\n"));
    assert_eq!(response, Response::Simple { code: 400 });
    assert_eq!(response.head(), "HTTP/1.1 400 Bad Request\r\n\r\n");
    assert!(disk.probes.is_empty());
    assert!(disk.reads.is_empty());
}

#[test]
fn other_method_is_a_bad_request() {
    let mut disk = Disk::new().file("public/index.html", b"x");
    let response = sent(serve(&mut disk, b"POST /index.html HTTP/1.1\r\n\r\n"));
    assert_eq!(response, Response::Simple { code: 400 });
    assert!(disk.probes.is_empty());
}

#[test]
fn missing_file_is_not_found() {
    let mut disk = Disk::new().directory("public");
    let response = sent(serve(&mut disk, b"GET /missing.html HTTP/1.1\r\n\r\n"));
    assert_eq!(response, Response::Simple { code: 404 });
    assert_eq!(response.head(), "HTTP/1.1 404 Not Found\r\n\r\n");
    assert_eq!(disk.reads, vec!["public/missing.html"]);
}

#[test]
fn unsupported_extension_is_not_found() {
    let mut disk = Disk::new().file("public/data.json", b"{}");
    let response = sent(serve(&mut disk, b"GET /data.json HTTP/1.1\r\n\r\n"));
    assert_eq!(response, Response::Simple { code: 404 });
    assert_eq!(disk.probes, vec!["public/data.json"]);
    assert!(disk.reads.is_empty());
}

#[test]
fn file_without_extension_is_not_found() {
    let mut disk = Disk::new().file("public/LICENSE", b"text");
    let response = sent(serve(&mut disk, b"GET /LICENSE HTTP/1.1\r\n\r\n"));
    assert_eq!(response, Response::Simple { code: 404 });
    assert!(disk.reads.is_empty());
}

#[test]
fn serves_each_supported_type() {
    let mut disk = Disk::new()
        .file("public/a.css", b"a{}")
        .file("public/b.js", b"b()")
        .file("public/c.svg", b"<svg/>")
        .file("public/d.woff2", &[0, 1, 2, 255]);
    assert_eq!(
        sent(serve(&mut disk, b"GET /a.css HTTP/1.1\r\n\r\n")),
        Response::Content { content_type: ContentType::Css, content: b"a{}".to_vec() }
    );
    assert_eq!(
        sent(serve(&mut disk, b"GET /b.js HTTP/1.1\r\n\r\n")),
        Response::Content { content_type: ContentType::JavaScript, content: b"b()".to_vec() }
    );
    assert_eq!(
        sent(serve(&mut disk, b"GET /c.svg HTTP/1.1\r\n\r\n")),
        Response::Content { content_type: ContentType::Svg, content: b"<svg/>".to_vec() }
    );
    assert_eq!(
        sent(serve(&mut disk, b"GET /d.woff2 HTTP/1.1\r\n\r\n")),
        Response::Content { content_type: ContentType::Woff2, content: vec![0, 1, 2, 255] }
    );
}

#[test]
fn serves_empty_file() {
    let mut disk = Disk::new().file("public/empty.css", b"");
    let response = sent(serve(&mut disk, b"GET /empty.css HTTP/1.1\r\n\r\n"));
    assert_eq!(
        response.head(),
        "HTTP/1.1 200 OK\r\nContent-Length: 0\r\nContent-Type: text/css\r\n\r\n"
    );
    assert!(response.body().is_empty());
}

#[test]
fn closed_socket_is_dropped_without_response() {
    let request = [b'0'; 16];
    let (state, action) = State::new().step(Event::Read(Some(0)), true, "public", &request);
    assert_eq!(state, State::Closed);
    assert_eq!(action, Action::Drop);
}

#[test]
fn failed_first_read_keeps_the_connection() {
    let request = [b'0'; 16];
    let (state, action) = State::new().step(Event::Read(None), true, "public", &request);
    assert_eq!(state, State::AwaitingData);
    assert_eq!(action, Action::Keep);
    let (state, action) = state.step(Event::Read(None), false, "public", &request);
    assert_eq!(state, State::AwaitingData);
    assert_eq!(action, Action::Keep);
}

#[test]
fn data_starts_the_drain() {
    let request = b"GET / HTTP/1.1\r\n\r\n";
    let (state, action) = State::new().step(Event::Read(Some(18)), true, "public", request);
    assert_eq!(state, State::Draining);
    assert_eq!(action, Action::ReadTrash);
    let (state, action) = state.step(Event::Read(Some(256)), true, "public", request);
    assert_eq!(state, State::Draining);
    assert_eq!(action, Action::ReadTrash);
    let (state, action) = state.step(Event::Read(Some(1)), true, "public", request);
    assert_eq!(state, State::Draining);
    assert_eq!(action, Action::ReadTrash);
}

#[test]
fn peer_closing_during_the_drain_drops_the_connection() {
    let request = b"GET / HTTP/1.1\r\n\r\n";
    let (state, _) = State::new().step(Event::Read(Some(18)), true, "public", request);
    let (state, action) = state.step(Event::Read(Some(0)), true, "public", request);
    assert_eq!(state, State::Closed);
    assert_eq!(action, Action::Drop);
}

#[test]
fn shutdown_before_the_drain_drops_the_connection() {
    let request = b"GET / HTTP/1.1\r\n\r\n";
    let (state, action) = State::new().step(Event::Read(Some(18)), false, "public", request);
    assert_eq!(state, State::Closed);
    assert_eq!(action, Action::Drop);
}

#[test]
fn shutdown_during_the_drain_drops_the_connection() {
    let request = b"GET / HTTP/1.1\r\n\r\n";
    let (state, _) = State::new().step(Event::Read(Some(18)), true, "public", request);
    let (state, action) = state.step(Event::Read(Some(40)), false, "public", request);
    assert_eq!(state, State::Closed);
    assert_eq!(action, Action::Drop);
}

#[test]
fn shutdown_after_the_drain_still_answers() {
    let request = b"GET /x.css HTTP/1.1\r\n\r\n";
    let (state, _) = State::new().step(Event::Read(Some(23)), true, "public", request);
    let (state, action) = state.step(Event::Read(None), false, "public", request);
    assert_eq!(action, Action::Probe { target: String::from("public/x.css") });
    let (state, action) = state.step(Event::Probed(false), false, "public", request);
    assert_eq!(state, State::Fetching { content_type: ContentType::Css });
    assert_eq!(action, Action::ReadFile { file: String::from("public/x.css") });
    let (state, action) = state.step(Event::Loaded(Some(vec![1])), false, "public", request);
    assert_eq!(state, State::Closed);
    assert_eq!(
        action,
        Action::Send {
            response: Response::Content { content_type: ContentType::Css, content: vec![1] }
        }
    );
}

#[test]
fn end_of_drain_plans_the_answer() {
    let request = b"GET /a/b.html?q HTTP/1.1\r\n\r\n";
    let (state, _) = State::new().step(Event::Read(Some(28)), true, ".", request);
    let (state, action) = state.step(Event::Read(None), true, ".", request);
    assert_eq!(
        state,
        State::Resolving { path: String::from("/a/b.html"), target: String::from("./a/b.html") }
    );
    assert_eq!(action, Action::Probe { target: String::from("./a/b.html") });
}

#[test]
fn plan_of_a_bad_request() {
    let (state, action) = plan("public", b"PUT /x HTTP/1.1");
    assert_eq!(state, State::Closed);
    assert_eq!(action, Action::Send { response: Response::Simple { code: 400 } });
    let (state, action) = plan("public", b"GET /a/../b HTTP/1.1");
    assert_eq!(state, State::Closed);
    assert_eq!(action, Action::Send { response: Response::Simple { code: 400 } });
    let (state, action) = plan("public", b"GET /\xfe HTTP/1.1");
    assert_eq!(state, State::Closed);
    assert_eq!(action, Action::Send { response: Response::Simple { code: 400 } });
}

#[test]
fn plan_of_a_good_request() {
    let (state, action) = plan("public", b"GET /caf\xc3\xa9/ HTTP/1.1");
    assert_eq!(
        state,
        State::Resolving {
            path: String::from("/caf\u{e9}/"),
            target: String::from("public/caf\u{e9}/"),
        }
    );
    assert_eq!(action, Action::Probe { target: String::from("public/caf\u{e9}/") });
}

#[test]
fn steps_after_a_resolution() {
    let (state, action) = after_probe(Resolution::Redirect { location: String::from("/d/") });
    assert_eq!(state, State::Closed);
    assert_eq!(
        action,
        Action::Send { response: Response::Redirect { location: String::from("/d/") } }
    );
    let (state, action) = after_probe(Resolution::Read {
        file: String::from("public/d/index.html"),
        content_type: ContentType::Html,
    });
    assert_eq!(state, State::Fetching { content_type: ContentType::Html });
    assert_eq!(action, Action::ReadFile { file: String::from("public/d/index.html") });
    let (state, action) = after_probe(Resolution::Refuse { error: Error::UnsupportedType });
    assert_eq!(state, State::Closed);
    assert_eq!(action, Action::Send { response: Response::Simple { code: 404 } });
    let (state, action) = after_probe(Resolution::Refuse { error: Error::BadRequest });
    assert_eq!(state, State::Closed);
    assert_eq!(action, Action::Send { response: Response::Simple { code: 400 } });
}

#[test]
fn steps_after_a_load() {
    let (state, action) = after_load(ContentType::Svg, Some(b"<svg/>".to_vec()));
    assert_eq!(state, State::Closed);
    assert_eq!(
        action,
        Action::Send {
            response: Response::Content {
                content_type: ContentType::Svg,
                content: b"<svg/>".to_vec(),
            }
        }
    );
    let (state, action) = after_load(ContentType::Svg, None);
    assert_eq!(state, State::Closed);
    assert_eq!(action, Action::Send { response: Response::Simple { code: 404 } });
}

#[test]
fn closed_connection_stays_closed() {
    let request = b"GET / HTTP/1.1";
    for event in [
        Event::Read(None),
        Event::Read(Some(0)),
        Event::Read(Some(9)),
        Event::Probed(true),
        Event::Probed(false),
        Event::Loaded(None),
        Event::Loaded(Some(vec![1, 2])),
    ] {
        let (state, action) = State::Closed.step(event, true, "public", request);
        assert_eq!(state, State::Closed);
        assert_eq!(action, Action::Drop);
    }
}

#[test]
fn event_that_was_not_asked_for_ends_the_cycle() {
    let request = b"GET /a.css HTTP/1.1";
    let (state, action) = State::AwaitingData.step(Event::Probed(true), true, "public", request);
    assert_eq!((state, action), (State::Closed, Action::Drop));
    let (state, action) = State::AwaitingData.step(Event::Loaded(None), true, "public", request);
    assert_eq!((state, action), (State::Closed, Action::Drop));
    let (state, action) = State::Draining.step(Event::Probed(false), true, "public", request);
    assert_eq!((state, action), (State::Closed, Action::Drop));
    let resolving =
        State::Resolving { path: String::from("/a.css"), target: String::from("public/a.css") };
    let (state, action) = resolving.step(Event::Read(Some(3)), true, "public", request);
    assert_eq!((state, action), (State::Closed, Action::Drop));
    let fetching = State::Fetching { content_type: ContentType::Css };
    let (state, action) = fetching.step(Event::Probed(false), true, "public", request);
    assert_eq!((state, action), (State::Closed, Action::Drop));
}

#[test]
fn new_connection_awaits_data() {
    assert_eq!(State::new(), State::AwaitingData);
    assert!(!State::new().is_closed());
    assert!(State::Closed.is_closed());
    assert!(!State::Draining.is_closed());
}

#[test]
fn every_cycle_answers_at_most_once() {
    let mut disk = Disk::new()
        .directory("public/d")
        .directory("public/d/")
        .file("public/d/index.html", b"index")
        .file("public/a.css", b"a");
    let requests: [&[u8]; 7] = [
        b"GET /a.css HTTP/1.1",
        b"GET /d HTTP/1.1",
        b"GET /d/ HTTP/1.1",
        b"GET /nothing.js HTTP/1.1",
        b"GET /a.txt HTTP/1.1",
        b"GET /.. HTTP/1.1",
        b"BREW /pot HTTP/1.1",
    ];
    let statuses: Vec<u16> =
        requests.iter().map(|request| sent(serve(&mut disk, request)).status()).collect();
    assert_eq!(statuses, vec![200, 308, 200, 404, 404, 400, 400]);
}
