use vstd::prelude::*;

use crate::path::{segments, split_path};

verus! {

/// The request methods that routing tells apart.
#[derive(Clone, Copy, Debug, PartialEq, Eq, Structural)]
pub enum Method {
    Get,
    Post,
    Other,
}

pub const STATUS_OK: u16 = 200;

pub const STATUS_ACCEPTED: u16 = 202;

pub const STATUS_NOT_FOUND: u16 = 404;

pub const STATUS_INTERNAL_SERVER_ERROR: u16 = 500;

/// The body of the answer to `GET /`.
pub open spec fn instructions() -> Seq<char> {
    "Try POSTing to /canvas/:uuid/events/:event"@
}

/// `path` is `/`: two empty segments.
pub open spec fn is_root_path(path: Seq<char>) -> bool {
    let s = segments(path);
    s.len() == 2 && s[0].len() == 0 && s[1].len() == 0
}

/// `path` is `/canvas/{uuid}/events/{event}`: exactly five segments, the
/// first empty, the second and fourth the literals.
pub open spec fn is_event_path(path: Seq<char>) -> bool {
    let s = segments(path);
    s.len() == 5 && s[0].len() == 0 && s[1] == "canvas"@ && s[3] == "events"@
}

/// The canvas identifier of an event path: its third segment, as written.
pub open spec fn canvas_of(path: Seq<char>) -> Seq<char> {
    segments(path)[2]
}

/// The event name of an event path: its fifth segment, as written.
pub open spec fn event_of(path: Seq<char>) -> Seq<char> {
    segments(path)[4]
}

/// Where a request goes.
pub enum Route {
    Root,
    Event { canvas_uuid: String, event_name: String },
    NotFound,
}

/// The route that `method` and `path` select.
pub open spec fn route_matches(r: Route, method: Method, path: Seq<char>) -> bool {
    match r {
        Route::Root => method == Method::Get && is_root_path(path),
        Route::Event { canvas_uuid, event_name } => method == Method::Post && is_event_path(path)
            && canvas_uuid@ == canvas_of(path) && event_name@ == event_of(path),
        Route::NotFound => !(method == Method::Get && is_root_path(path)) && !(method
            == Method::Post && is_event_path(path)),
    }
}

/// `s` holds exactly the characters of `t`.
fn is_text(s: &String, t: &str) -> (r: bool)
    ensures
        r == (s@ == t@),
{
    let a = s.as_str();
    let n = a.unicode_len();
    if n != t.unicode_len() {
        return false;
    }
    let mut i: usize = 0;
    while i < n
        invariant
            n == a@.len() == t@.len(),
            a@ == s@,
            i <= n,
            a@.subrange(0, i as int) == t@.subrange(0, i as int),
        decreases n - i,
    {
        if a.get_char(i) != t.get_char(i) {
            return false;
        }
        proof {
            assert(a@.subrange(0, i + 1) =~= a@.subrange(0, i as int).push(a@[i as int]));
            assert(t@.subrange(0, i + 1) =~= t@.subrange(0, i as int).push(t@[i as int]));
        }
        i = i + 1;
    }
    proof {
        assert(a@ =~= a@.subrange(0, n as int));
        assert(t@ =~= t@.subrange(0, n as int));
    }
    true
}

/// Matches `method` and the segments of `path` against the two routes.
pub fn route(method: Method, path: &str) -> (r: Route)
    ensures
        route_matches(r, method, path@),
{
    let segs = split_path(path);
    proof {
        let v = segs@.map_values(|x: String| x@);
        assert(forall|k: int| 0 <= k < segs@.len() ==> #[trigger] segs@[k]@ == v[k]);
    }
    let n = segs.len();
    if method == Method::Get && n == 2 && segs[0].as_str().unicode_len() == 0 && segs[
        1
    ].as_str().unicode_len() == 0 {
        return Route::Root;
    }
    if method == Method::Post && n == 5 && segs[0].as_str().unicode_len() == 0 && is_text(
        &segs[1],
        "canvas",
    ) && is_text(&segs[3], "events") {
        return Route::Event { canvas_uuid: segs[2].clone(), event_name: segs[4].clone() };
    }
    Route::NotFound
}

/// What a caller gets back: a status code and a body text.
pub struct Response {
    pub status: u16,
    pub body: String,
}

/// Reading the request body failed; `message` says why.
pub struct BodyReadError {
    pub message: String,
}

/// What is handed to a push client: the canvas, the event name and the
/// whole request body.
pub struct PushEvent {
    pub canvas_uuid: String,
    pub event_name: String,
    pub payload: Vec<u8>,
}

/// A client of the downstream broadcast service.
pub trait AsyncPush: Sized {
    /// A ready client.
    fn connect() -> Self;

    /// Sends one event without waiting for its outcome.
    fn push(&self, canvas_uuid: &str, event_name: &str, json_bytes: &[u8]);
}

/// The status of the answer to `method` on `path`, where `body_read` says
/// whether the body could be read in full (it matters on the event route
/// alone).
pub open spec fn status_for(method: Method, path: Seq<char>, body_read: bool) -> u16 {
    if method == Method::Get && is_root_path(path) {
        STATUS_OK
    } else if method == Method::Post && is_event_path(path) {
        if body_read {
            STATUS_ACCEPTED
        } else {
            STATUS_INTERNAL_SERVER_ERROR
        }
    } else {
        STATUS_NOT_FOUND
    }
}

/// The body of the answer to `method` on `path`.
pub open spec fn body_for(method: Method, path: Seq<char>) -> Seq<char> {
    if method == Method::Get && is_root_path(path) {
        instructions()
    } else {
        Seq::empty()
    }
}

/// The event that pushing `payload` to `canvas_uuid` / `event_name` hands
/// over.
pub open spec fn is_push_of(
    e: PushEvent,
    canvas_uuid: Seq<char>,
    event_name: Seq<char>,
    payload: Seq<u8>,
) -> bool {
    e.canvas_uuid@ == canvas_uuid && e.event_name@ == event_name && e.payload@ == payload
}

/// Whether a request is to push an event: a `POST` on an event path whose
/// body was read in full.
pub open spec fn pushes(method: Method, path: Seq<char>, body_read: bool) -> bool {
    method == Method::Post && is_event_path(path) && body_read
}

/// The event to push once the body has been read in full: the canvas and
/// event name as given and the body byte for byte. Where reading failed,
/// there is no event, and the error comes back unchanged.
pub fn handle_push(
    canvas_uuid: String,
    event_name: String,
    payload: Result<Vec<u8>, BodyReadError>,
) -> (r: Result<PushEvent, BodyReadError>)
    ensures
        match payload {
            Ok(b) => r matches Ok(e) && is_push_of(e, canvas_uuid@, event_name@, b@),
            Err(err) => r == Err::<PushEvent, BodyReadError>(err),
        },
{
    match payload {
        Ok(bytes) => Ok(PushEvent { canvas_uuid, event_name, payload: bytes }),
        Err(err) => Err(err),
    }
}

/// The answer to a request, and the one event, if any, to hand to a push
/// client (`AsyncPush::push`) without waiting for its outcome.
pub struct Handled {
    pub response: Response,
    pub push: Option<PushEvent>,
}

fn empty_response(status: u16) -> (r: Response)
    ensures
        r.status == status,
        r.body@ == Seq::<char>::empty(),
{
    Response { status, body: String::new() }
}

/// Answers `method` on `path`, given what reading the request body gave;
/// the body is looked at on the event route alone. On that route with a
/// body read in full, the result holds the event to push: the path's
/// canvas and event segments as written and the body's bytes; on every
/// other request it holds none.
pub fn handle(method: Method, path: &str, body: Result<Vec<u8>, BodyReadError>) -> (r: Handled)
    ensures
        r.response.status == status_for(method, path@, body is Ok),
        r.response.body@ == body_for(method, path@),
        r.push is Some <==> pushes(method, path@, body is Ok),
        r.push matches Some(e) ==> is_push_of(
            e,
            canvas_of(path@),
            event_of(path@),
            body->Ok_0@,
        ),
{
    match route(method, path) {
        Route::Root => Handled {
            response: Response {
                status: STATUS_OK,
                body: "Try POSTing to /canvas/:uuid/events/:event".to_owned(),
            },
            push: None,
        },
        Route::Event { canvas_uuid, event_name } => {
            match handle_push(canvas_uuid, event_name, body) {
                Ok(e) => Handled { response: empty_response(STATUS_ACCEPTED), push: Some(e) },
                Err(_) => Handled {
                    response: empty_response(STATUS_INTERNAL_SERVER_ERROR),
                    push: None,
                },
            }
        },
        Route::NotFound => Handled { response: empty_response(STATUS_NOT_FOUND), push: None },
    }
}

/// Any request that is neither `GET /` nor `POST` on an event path is
/// answered 404 with an empty body and pushes nothing, whatever its body.
pub proof fn lemma_unrouted_is_not_found(method: Method, path: Seq<char>, body_read: bool)
    requires
        !(method == Method::Get && is_root_path(path)),
        !(method == Method::Post && is_event_path(path)),
    ensures
        status_for(method, path, body_read) == STATUS_NOT_FOUND,
        body_for(method, path) == Seq::<char>::empty(),
        !pushes(method, path, body_read),
{
}

/// `GET /` is answered 200 with the instructions and pushes nothing,
/// whatever the body.
pub proof fn lemma_root_gives_instructions(path: Seq<char>, body_read: bool)
    requires
        is_root_path(path),
    ensures
        status_for(Method::Get, path, body_read) == STATUS_OK,
        body_for(Method::Get, path) == instructions(),
        !pushes(Method::Get, path, body_read),
{
}

/// A `POST` on an event path is answered 202 and pushes when its body was
/// read in full, whatever the bytes; it is answered 500 and pushes nothing
/// when reading failed.
pub proof fn lemma_event_post_status(path: Seq<char>)
    requires
        is_event_path(path),
    ensures
        status_for(Method::Post, path, true) == STATUS_ACCEPTED,
        status_for(Method::Post, path, false) == STATUS_INTERNAL_SERVER_ERROR,
        body_for(Method::Post, path) == Seq::<char>::empty(),
        pushes(Method::Post, path, true),
        !pushes(Method::Post, path, false),
{
}

/// A path of four or six segments is no event path, even where it holds
/// the literals: it is answered 404 and pushes nothing.
pub proof fn lemma_event_path_needs_five_segments(
    method: Method,
    path: Seq<char>,
    body_read: bool,
)
    requires
        segments(path).len() == 4 || segments(path).len() == 6,
    ensures
        !is_event_path(path),
        status_for(method, path, body_read) == STATUS_NOT_FOUND,
        !pushes(method, path, body_read),
{
}

} // verus!
