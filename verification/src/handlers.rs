//! The route handlers, and the decision what a request asks for.
//!
//! Handlers never touch the file system. Where a request needs a file read or
//! written, `handle_request` says so in its result, and `handle_file` or
//! `handle_file_upload` turns the outcome of that work into the response.

use vstd::prelude::*;
use crate::request::{HttpRequest, RequestModel};
use crate::response::{
    created_model,
    internal_server_error_model,
    not_found_model,
    ok_model,
    HttpResponse,
    ResponseModel,
};
use crate::router::{route, route_of, RouteModel, RouteOutcome};
use crate::text::{after_prefix, append, rows, starts_with, strip_prefix, to_wire, wire};

verus! {

/// What has to happen next for a request.
#[derive(Clone, Debug)]
pub enum Step {
    /// The response is known.
    Respond(HttpResponse),
    /// The file at `path` is to be read in full.
    ReadFile { path: Vec<u8> },
    /// The file at `path` is to be created or truncated, and `content`
    /// written to it in full.
    WriteFile { path: Vec<u8>, content: Vec<u8> },
}

/// The mathematical content of a step.
pub enum StepModel {
    Respond(ResponseModel),
    ReadFile { path: Seq<u8> },
    WriteFile { path: Seq<u8>, content: Seq<u8> },
}

impl View for Step {
    type V = StepModel;

    open spec fn view(&self) -> StepModel {
        match self {
            Step::Respond(response) => StepModel::Respond(response@),
            Step::ReadFile { path } => StepModel::ReadFile { path: path@ },
            Step::WriteFile { path, content } => StepModel::WriteFile {
                path: path@,
                content: content@,
            },
        }
    }
}

/// The single header line of a response with the given content type.
pub open spec fn content_type(kind: &str) -> Seq<Seq<u8>> {
    seq![wire("Content-Type: ") + wire(kind)]
}

/// The value of the first header line that begins with `User-Agent`: the
/// line without its leading `User-Agent: `. `Unknown` when there is no such
/// line.
pub open spec fn user_agent_of(headers: Seq<Seq<u8>>) -> Seq<u8>
    decreases headers.len(),
{
    if headers.len() == 0 {
        wire("Unknown")
    } else if wire("User-Agent").is_prefix_of(headers[0]) {
        after_prefix(headers[0], wire("User-Agent: "))
    } else {
        user_agent_of(headers.skip(1))
    }
}

/// The response of the echo route.
pub open spec fn echo_response(request: RequestModel) -> ResponseModel {
    ok_model(Some(content_type("text/plain")), Some(after_prefix(request.path, wire("/echo/"))))
}

/// The response of the user-agent route.
pub open spec fn user_agent_response(request: RequestModel) -> ResponseModel {
    ok_model(Some(content_type("text/plain")), Some(user_agent_of(request.headers)))
}

/// The response to a file read: the bytes that were read, or `404` when the
/// file could not be read.
pub open spec fn file_response(contents: Option<Seq<u8>>) -> ResponseModel {
    match contents {
        Some(bytes) => ok_model(Some(content_type("application/octet-stream")), Some(bytes)),
        None => not_found_model(),
    }
}

/// The path of the file `name` below the base directory `dir`.
pub open spec fn joined_path(dir: Seq<u8>, name: Seq<u8>) -> Seq<u8> {
    dir + wire("/") + name
}

/// The bytes of the configured base directory.
pub open spec fn dir_bytes(data_dir: Option<String>) -> Option<Seq<u8>> {
    match data_dir {
        Some(dir) => Some(vstd::utf8::encode_utf8(dir@)),
        None => None,
    }
}

/// What a request asks for, given the base directory. A file route without a
/// base directory is answered with `500`.
pub open spec fn plan(request: RequestModel, dir: Option<Seq<u8>>) -> StepModel {
    match route_of(request.method, request.path) {
        RouteModel::Root => StepModel::Respond(ok_model(None, None)),
        RouteModel::UserAgent => StepModel::Respond(user_agent_response(request)),
        RouteModel::Echo(_) => StepModel::Respond(echo_response(request)),
        RouteModel::FileRead(name) => match dir {
            Some(d) => StepModel::ReadFile { path: joined_path(d, name) },
            None => StepModel::Respond(internal_server_error_model()),
        },
        RouteModel::FileWrite(name) => match dir {
            Some(d) => StepModel::WriteFile {
                path: joined_path(d, name),
                content: request.content,
            },
            None => StepModel::Respond(internal_server_error_model()),
        },
        RouteModel::NotFound => StepModel::Respond(not_found_model()),
    }
}

/// Builds the header list that names a content type.
fn content_type_header(kind: &str) -> (headers: Vec<Vec<u8>>)
    ensures
        rows(headers@) == content_type(kind),
{
    let mut line = to_wire("Content-Type: ");
    append(&mut line, kind.as_bytes());
    let mut headers: Vec<Vec<u8>> = Vec::new();
    headers.push(line);
    assert(rows(headers@) =~= content_type(kind));
    headers
}

/// Answers with the text that follows `/echo/` in the path.
pub fn handle_echo(request: HttpRequest) -> (r: HttpResponse)
    ensures
        r@ == echo_response(request@),
{
    let echo_text = strip_prefix(request.path.as_slice(), "/echo/".as_bytes());
    let headers = content_type_header("text/plain");
    HttpResponse::ok(Some(headers), Some(echo_text))
}

/// Answers with the client's user agent, as its header line gives it.
pub fn handle_user_agent(request: HttpRequest) -> (r: HttpResponse)
    ensures
        r@ == user_agent_response(request@),
{
    let mut user_agent = to_wire("Unknown");
    let mut i: usize = 0;
    assert(rows(request.headers@).skip(0) =~= rows(request.headers@));
    while i < request.headers.len()
        invariant_except_break
            user_agent@ == wire("Unknown"),
            user_agent_of(rows(request.headers@)) == user_agent_of(
                rows(request.headers@).skip(i as int),
            ),
        invariant
            i <= request.headers@.len(),
        ensures
            user_agent@ == user_agent_of(rows(request.headers@)),
        decreases request.headers@.len() - i,
    {
        let header = request.headers[i].as_slice();
        proof {
            let rest = rows(request.headers@).skip(i as int);
            assert(rest[0] == header@);
            assert(rest.skip(1) =~= rows(request.headers@).skip(i + 1));
        }
        if starts_with(header, "User-Agent".as_bytes()) {
            user_agent = strip_prefix(header, "User-Agent: ".as_bytes());
            break;
        }
        i = i + 1;
    }
    let headers = content_type_header("text/plain");
    HttpResponse::ok(Some(headers), Some(user_agent))
}

/// Joins the base directory and a file name into the path of the file.
pub fn file_path(data_dir: &str, name: &[u8]) -> (path: Vec<u8>)
    ensures
        path@ == joined_path(wire(data_dir), name@),
{
    let mut path = to_wire(data_dir);
    append(&mut path, "/".as_bytes());
    append(&mut path, name);
    path
}

/// Answers a file read with what was read: `contents` holds the bytes of the
/// file, or nothing when it could not be read.
pub fn handle_file(contents: Option<Vec<u8>>) -> (r: HttpResponse)
    ensures
        r@ == file_response(
            match contents {
                Some(bytes) => Some(bytes@),
                None => None,
            },
        ),
{
    match contents {
        Some(bytes) => {
            let headers = content_type_header("application/octet-stream");
            HttpResponse::ok(Some(headers), Some(bytes))
        },
        None => HttpResponse::not_found(),
    }
}

/// Answers a file write: `201` when the file was written, and no response at
/// all when it was not.
pub fn handle_file_upload(written: bool) -> (r: Option<HttpResponse>)
    ensures
        written ==> (r matches Some(response) && response@ == created_model()),
        !written ==> r is None,
{
    if written {
        Some(HttpResponse::created())
    } else {
        None
    }
}

/// Decides what a request asks for.
pub fn handle_request(request: HttpRequest, data_dir: Option<String>) -> (step: Step)
    ensures
        step@ == plan(request@, dir_bytes(data_dir)),
{
    match route(request.method, request.path.as_slice()) {
        RouteOutcome::Root => Step::Respond(HttpResponse::ok(None, None)),
        RouteOutcome::UserAgent => Step::Respond(handle_user_agent(request)),
        RouteOutcome::Echo(_) => Step::Respond(handle_echo(request)),
        RouteOutcome::FileRead(name) => match data_dir {
            Some(dir) => Step::ReadFile { path: file_path(dir.as_str(), name.as_slice()) },
            None => Step::Respond(HttpResponse::internal_server_error()),
        },
        RouteOutcome::FileWrite(name) => match data_dir {
            Some(dir) => Step::WriteFile {
                path: file_path(dir.as_str(), name.as_slice()),
                content: request.content,
            },
            None => Step::Respond(HttpResponse::internal_server_error()),
        },
        RouteOutcome::NotFound => Step::Respond(HttpResponse::not_found()),
    }
}

} // verus!
