//! What holds of the library as a whole, proved from the definitions.

use vstd::prelude::*;
use crate::connection::{next, ActionModel, EventModel, State};
use crate::handlers::{content_type, file_response, joined_path, plan, user_agent_of, StepModel};
use crate::request::{decode, lines, tokens, DecodeError, HttpMethod, RequestModel};
use crate::response::{
    body_of,
    created_model,
    encode,
    header_block,
    internal_server_error_model,
    join_lines,
    not_found_model,
    ok_model,
    status_line,
    ResponseModel,
};
use crate::text::{decimal, wire};

verus! {

/// The bytes of an ASCII text that is written as two texts in a row are the
/// bytes of the first followed by those of the second.
pub proof fn wire_of_joined(whole: &str, first: &str, second: &str)
    requires
        whole@ =~= first@ + second@,
        whole.is_ascii(),
    ensures
        wire(whole) == wire(first) + wire(second),
{
    broadcast use vstd::string::is_ascii_spec_bytes;

    vstd::string::is_ascii_concat(whole, first, second);
    assert(wire(whole) =~= wire(first) + wire(second));
}

/// The wire form of a response without headers and body: its status line,
/// a `Content-Length` of zero and the blank line.
pub proof fn encode_of_plain(status_code: u16, reason: Seq<u8>)
    ensures
        encode(crate::response::plain(status_code, reason)) == wire("HTTP/1.1 ") + decimal(
            status_code as nat,
        ) + wire(" ") + reason + wire("\r\nContent-Length: 0\r\n\r\n"),
{
    reveal_strlit("HTTP/1.1 ");
    reveal_strlit("HTTP/1.1");
    reveal_strlit(" ");
    reveal_strlit("\r\n");
    reveal_strlit("Content-Length: ");
    reveal_strlit("\r\nContent-Length: ");
    reveal_strlit("\r\nContent-Length: 0");
    reveal_strlit("\r\nContent-Length: 0\r\n");
    reveal_strlit("\r\nContent-Length: 0\r\n\r\n");
    reveal_strlit("0");
    let m = crate::response::plain(status_code, reason);
    wire_of_joined("HTTP/1.1 ", "HTTP/1.1", " ");
    wire_of_joined("\r\nContent-Length: ", "\r\n", "Content-Length: ");
    wire_of_joined("\r\nContent-Length: 0", "\r\nContent-Length: ", "0");
    wire_of_joined("\r\nContent-Length: 0\r\n", "\r\nContent-Length: 0", "\r\n");
    wire_of_joined("\r\nContent-Length: 0\r\n\r\n", "\r\nContent-Length: 0\r\n", "\r\n");
    assert(decimal(0) =~= wire("0")) by {
        broadcast use vstd::string::is_ascii_spec_bytes;

        assert("0".is_ascii());
    }
    assert(body_of(m) =~= Seq::<u8>::empty());
    assert(header_block(m) =~= Seq::<u8>::empty());
    assert(encode(m) =~= wire("HTTP/1.1 ") + decimal(status_code as nat) + wire(" ") + reason
        + wire("\r\nContent-Length: 0\r\n\r\n"));
}

/// A request for `/` is answered with `200 OK`, a `Content-Length` of zero
/// and no body, whatever its method, headers and body.
pub proof fn root_is_ok(request: RequestModel, dir: Option<Seq<u8>>)
    requires
        request.path == wire("/"),
    ensures
        plan(request, dir) == StepModel::Respond(ok_model(None, None)),
        encode(ok_model(None, None)) == wire("HTTP/1.1 200 OK\r\nContent-Length: 0\r\n\r\n"),
{
    encode_of_plain(200, wire("OK"));
    reveal_with_fuel(decimal, 3);
    reveal_strlit("HTTP/1.1 ");
    reveal_strlit(" ");
    reveal_strlit("OK");
    reveal_strlit("200");
    reveal_strlit("HTTP/1.1 200");
    reveal_strlit("HTTP/1.1 200 ");
    reveal_strlit("HTTP/1.1 200 OK");
    reveal_strlit("\r\nContent-Length: 0\r\n\r\n");
    reveal_strlit("HTTP/1.1 200 OK\r\nContent-Length: 0\r\n\r\n");
    assert(decimal(200) =~= wire("200")) by {
        broadcast use vstd::string::is_ascii_spec_bytes;

        assert("200".is_ascii());
    }
    wire_of_joined("HTTP/1.1 200", "HTTP/1.1 ", "200");
    wire_of_joined("HTTP/1.1 200 ", "HTTP/1.1 200", " ");
    wire_of_joined("HTTP/1.1 200 OK", "HTTP/1.1 200 ", "OK");
    wire_of_joined(
        "HTTP/1.1 200 OK\r\nContent-Length: 0\r\n\r\n",
        "HTTP/1.1 200 OK",
        "\r\nContent-Length: 0\r\n\r\n",
    );
}

/// The wire form of a `200 OK` response with a content type and a body: the
/// status line, the `Content-Type` line, a `Content-Length` that is the exact
/// length of the body, the blank line, and the body as it is.
pub proof fn encode_of_typed(kind: &str, body: Seq<u8>)
    ensures
        encode(ok_model(Some(content_type(kind)), Some(body))) == wire(
            "HTTP/1.1 200 OK\r\nContent-Type: ",
        ) + wire(kind) + wire("\r\nContent-Length: ") + decimal(body.len()) + wire("\r\n\r\n")
            + body,
{
    let m = ok_model(Some(content_type(kind)), Some(body));
    reveal_with_fuel(decimal, 3);
    reveal_with_fuel(join_lines, 2);
    reveal_strlit("HTTP/1.1");
    reveal_strlit(" ");
    reveal_strlit("OK");
    reveal_strlit("200");
    reveal_strlit("\r\n");
    reveal_strlit("\r\n\r\n");
    reveal_strlit("Content-Type: ");
    reveal_strlit("Content-Length: ");
    reveal_strlit("\r\nContent-Length: ");
    reveal_strlit("HTTP/1.1 ");
    reveal_strlit("HTTP/1.1 200");
    reveal_strlit("HTTP/1.1 200 ");
    reveal_strlit("HTTP/1.1 200 OK");
    reveal_strlit("HTTP/1.1 200 OK\r\n");
    reveal_strlit("HTTP/1.1 200 OK\r\nContent-Type: ");
    assert(decimal(200) =~= wire("200")) by {
        broadcast use vstd::string::is_ascii_spec_bytes;

        assert("200".is_ascii());
    }
    wire_of_joined("HTTP/1.1 ", "HTTP/1.1", " ");
    wire_of_joined("HTTP/1.1 200", "HTTP/1.1 ", "200");
    wire_of_joined("HTTP/1.1 200 ", "HTTP/1.1 200", " ");
    wire_of_joined("HTTP/1.1 200 OK", "HTTP/1.1 200 ", "OK");
    wire_of_joined("HTTP/1.1 200 OK\r\n", "HTTP/1.1 200 OK", "\r\n");
    wire_of_joined("HTTP/1.1 200 OK\r\nContent-Type: ", "HTTP/1.1 200 OK\r\n", "Content-Type: ");
    wire_of_joined("\r\nContent-Length: ", "\r\n", "Content-Length: ");
    wire_of_joined("\r\n\r\n", "\r\n", "\r\n");
    assert(status_line(m) =~= wire("HTTP/1.1 200 OK\r\n"));
    let line = wire("Content-Type: ") + wire(kind);
    assert(content_type(kind).drop_last() =~= Seq::<Seq<u8>>::empty());
    assert(content_type(kind).last() == line);
    assert(header_block(m) =~= line + wire("\r\n"));
    assert(encode(m) =~= wire("HTTP/1.1 200 OK\r\nContent-Type: ") + wire(kind) + wire(
        "\r\nContent-Length: ",
    ) + decimal(body.len()) + wire("\r\n\r\n") + body);
}

/// Whatever follows `/echo/` in the path comes back as the body, byte for
/// byte, with status `200`, the content type `text/plain` and a
/// `Content-Length` that is the length of that text.
pub proof fn echo_returns_text(request: RequestModel, dir: Option<Seq<u8>>, text: Seq<u8>)
    requires
        request.path == wire("/echo/") + text,
    ensures
        plan(request, dir) == StepModel::Respond(
            ok_model(Some(content_type("text/plain")), Some(text)),
        ),
        encode(ok_model(Some(content_type("text/plain")), Some(text))) == wire(
            "HTTP/1.1 200 OK\r\nContent-Type: text/plain\r\nContent-Length: ",
        ) + decimal(text.len()) + wire("\r\n\r\n") + text,
{
    broadcast use vstd::string::is_ascii_spec_bytes;

    reveal_strlit("/");
    reveal_strlit("/user-agent");
    reveal_strlit("/echo/");
    assert("/".is_ascii() && "/user-agent".is_ascii() && "/echo/".is_ascii());
    assert(request.path.len() >= 6);
    assert(request.path[1] == wire("/echo/")[1]);
    assert(wire("/user-agent")[1] != wire("/echo/")[1]);
    assert(wire("/echo/") =~= request.path.subrange(0, 6));
    assert(request.path.skip(6) =~= text);

    encode_of_typed("text/plain", text);
    reveal_strlit("HTTP/1.1 200 OK\r\nContent-Type: ");
    reveal_strlit("text/plain");
    reveal_strlit("\r\nContent-Length: ");
    reveal_strlit("HTTP/1.1 200 OK\r\nContent-Type: text/plain");
    reveal_strlit("HTTP/1.1 200 OK\r\nContent-Type: text/plain\r\nContent-Length: ");
    wire_of_joined(
        "HTTP/1.1 200 OK\r\nContent-Type: text/plain",
        "HTTP/1.1 200 OK\r\nContent-Type: ",
        "text/plain",
    );
    wire_of_joined(
        "HTTP/1.1 200 OK\r\nContent-Type: text/plain\r\nContent-Length: ",
        "HTTP/1.1 200 OK\r\nContent-Type: text/plain",
        "\r\nContent-Length: ",
    );
}

/// The wire form of the `404` response.
pub proof fn encode_of_not_found()
    ensures
        encode(not_found_model()) == wire("HTTP/1.1 404 Not Found\r\nContent-Length: 0\r\n\r\n"),
{
    encode_of_plain(404, wire("Not Found"));
    reveal_with_fuel(decimal, 3);
    reveal_strlit("HTTP/1.1 ");
    reveal_strlit(" ");
    reveal_strlit("Not Found");
    reveal_strlit("404");
    reveal_strlit("HTTP/1.1 404");
    reveal_strlit("HTTP/1.1 404 ");
    reveal_strlit("HTTP/1.1 404 Not Found");
    reveal_strlit("\r\nContent-Length: 0\r\n\r\n");
    reveal_strlit("HTTP/1.1 404 Not Found\r\nContent-Length: 0\r\n\r\n");
    assert(decimal(404) =~= wire("404")) by {
        broadcast use vstd::string::is_ascii_spec_bytes;

        assert("404".is_ascii());
    }
    wire_of_joined("HTTP/1.1 404", "HTTP/1.1 ", "404");
    wire_of_joined("HTTP/1.1 404 ", "HTTP/1.1 404", " ");
    wire_of_joined("HTTP/1.1 404 Not Found", "HTTP/1.1 404 ", "Not Found");
    wire_of_joined(
        "HTTP/1.1 404 Not Found\r\nContent-Length: 0\r\n\r\n",
        "HTTP/1.1 404 Not Found",
        "\r\nContent-Length: 0\r\n\r\n",
    );
}

/// The wire form of the `500` response.
pub proof fn encode_of_internal_server_error()
    ensures
        encode(internal_server_error_model()) == wire(
            "HTTP/1.1 500 Internal Server Error\r\nContent-Length: 0\r\n\r\n",
        ),
{
    encode_of_plain(500, wire("Internal Server Error"));
    reveal_with_fuel(decimal, 3);
    reveal_strlit("HTTP/1.1 ");
    reveal_strlit(" ");
    reveal_strlit("Internal Server Error");
    reveal_strlit("500");
    reveal_strlit("HTTP/1.1 500");
    reveal_strlit("HTTP/1.1 500 ");
    reveal_strlit("HTTP/1.1 500 Internal Server Error");
    reveal_strlit("\r\nContent-Length: 0\r\n\r\n");
    reveal_strlit("HTTP/1.1 500 Internal Server Error\r\nContent-Length: 0\r\n\r\n");
    assert(decimal(500) =~= wire("500")) by {
        broadcast use vstd::string::is_ascii_spec_bytes;

        assert("500".is_ascii());
    }
    wire_of_joined("HTTP/1.1 500", "HTTP/1.1 ", "500");
    wire_of_joined("HTTP/1.1 500 ", "HTTP/1.1 500", " ");
    wire_of_joined("HTTP/1.1 500 Internal Server Error", "HTTP/1.1 500 ", "Internal Server Error");
    wire_of_joined(
        "HTTP/1.1 500 Internal Server Error\r\nContent-Length: 0\r\n\r\n",
        "HTTP/1.1 500 Internal Server Error",
        "\r\nContent-Length: 0\r\n\r\n",
    );
}

/// The wire form of the `201` response.
pub proof fn encode_of_created()
    ensures
        encode(created_model()) == wire("HTTP/1.1 201 Created\r\nContent-Length: 0\r\n\r\n"),
{
    encode_of_plain(201, wire("Created"));
    reveal_with_fuel(decimal, 3);
    reveal_strlit("HTTP/1.1 ");
    reveal_strlit(" ");
    reveal_strlit("Created");
    reveal_strlit("201");
    reveal_strlit("HTTP/1.1 201");
    reveal_strlit("HTTP/1.1 201 ");
    reveal_strlit("HTTP/1.1 201 Created");
    reveal_strlit("\r\nContent-Length: 0\r\n\r\n");
    reveal_strlit("HTTP/1.1 201 Created\r\nContent-Length: 0\r\n\r\n");
    assert(decimal(201) =~= wire("201")) by {
        broadcast use vstd::string::is_ascii_spec_bytes;

        assert("201".is_ascii());
    }
    wire_of_joined("HTTP/1.1 201", "HTTP/1.1 ", "201");
    wire_of_joined("HTTP/1.1 201 ", "HTTP/1.1 201", " ");
    wire_of_joined("HTTP/1.1 201 Created", "HTTP/1.1 201 ", "Created");
    wire_of_joined(
        "HTTP/1.1 201 Created\r\nContent-Length: 0\r\n\r\n",
        "HTTP/1.1 201 Created",
        "\r\nContent-Length: 0\r\n\r\n",
    );
}

/// A path that no route claims is answered with `404` and a `Content-Length`
/// of zero. So is a path below `/files/` with a method other than `GET` and
/// `POST`.
pub proof fn unrouted_is_not_found(request: RequestModel, dir: Option<Seq<u8>>)
    requires
        request.path != wire("/"),
        request.path != wire("/user-agent"),
        !wire("/echo/").is_prefix_of(request.path),
        !wire("/files/").is_prefix_of(request.path) || (request.method != HttpMethod::GET
            && request.method != HttpMethod::POST),
    ensures
        plan(request, dir) == StepModel::Respond(not_found_model()),
        encode(not_found_model()) == wire("HTTP/1.1 404 Not Found\r\nContent-Length: 0\r\n\r\n"),
{
    encode_of_not_found();
}

/// A file route without a configured base directory is answered with `500`,
/// not with `404`.
pub proof fn file_route_without_directory(request: RequestModel)
    requires
        wire("/files/").is_prefix_of(request.path),
        request.method == HttpMethod::GET || request.method == HttpMethod::POST,
    ensures
        plan(request, None) == StepModel::Respond(internal_server_error_model()),
        encode(internal_server_error_model()) == wire(
            "HTTP/1.1 500 Internal Server Error\r\nContent-Length: 0\r\n\r\n",
        ),
{
    broadcast use vstd::string::is_ascii_spec_bytes;

    reveal_strlit("/");
    reveal_strlit("/user-agent");
    reveal_strlit("/echo/");
    reveal_strlit("/files/");
    assert("/".is_ascii() && "/user-agent".is_ascii() && "/echo/".is_ascii() && "/files/".is_ascii());
    let path = request.path;
    assert(path.subrange(0, 7)[1] == wire("/files/")[1]);
    assert(wire("/user-agent")[1] != path[1]);
    assert(!wire("/echo/").is_prefix_of(path)) by {
        if wire("/echo/").is_prefix_of(path) {
            assert(path.subrange(0, 6)[1] == wire("/echo/")[1]);
        }
    }
    encode_of_internal_server_error();
}

/// Where no header line begins with `User-Agent`, the user agent is
/// `Unknown`.
pub proof fn user_agent_absent(headers: Seq<Seq<u8>>)
    requires
        forall|i: int| 0 <= i < headers.len() ==> !wire("User-Agent").is_prefix_of(#[trigger] headers[i]),
    ensures
        user_agent_of(headers) == wire("Unknown"),
    decreases headers.len(),
{
    if headers.len() > 0 {
        assert(!wire("User-Agent").is_prefix_of(headers[0]));
        assert forall|i: int| 0 <= i < headers.skip(1).len() implies !wire(
            "User-Agent",
        ).is_prefix_of(#[trigger] headers.skip(1)[i]) by {
            assert(headers.skip(1)[i] == headers[i + 1]);
        }
        user_agent_absent(headers.skip(1));
    }
}

/// The user agent is what follows `User-Agent: ` in the first header line
/// that begins with `User-Agent`.
pub proof fn user_agent_reflected(headers: Seq<Seq<u8>>, k: int, value: Seq<u8>)
    requires
        0 <= k < headers.len(),
        headers[k] == wire("User-Agent: ") + value,
        forall|i: int| 0 <= i < k ==> !wire("User-Agent").is_prefix_of(#[trigger] headers[i]),
    ensures
        user_agent_of(headers) == value,
    decreases k,
{
    if k == 0 {
        broadcast use vstd::string::is_ascii_spec_bytes;

        reveal_strlit("User-Agent");
        reveal_strlit("User-Agent: ");
        assert("User-Agent".is_ascii() && "User-Agent: ".is_ascii());
        let line = headers[0];
        assert(wire("User-Agent") =~= line.subrange(0, 10));
        assert(wire("User-Agent: ") =~= line.subrange(0, 12));
        assert(line.skip(12) =~= value);
    } else {
        assert(!wire("User-Agent").is_prefix_of(headers[0]));
        assert(headers.skip(1)[k - 1] == headers[k]);
        assert forall|i: int| 0 <= i < k - 1 implies !wire("User-Agent").is_prefix_of(
            #[trigger] headers.skip(1)[i],
        ) by {
            assert(headers.skip(1)[i] == headers[i + 1]);
        }
        user_agent_reflected(headers.skip(1), k - 1, value);
    }
}

/// A request for `/user-agent` is answered with the user agent as the body
/// and the content type `text/plain`.
pub proof fn user_agent_is_answered(request: RequestModel, dir: Option<Seq<u8>>)
    requires
        request.path == wire("/user-agent"),
    ensures
        plan(request, dir) == StepModel::Respond(
            ok_model(Some(content_type("text/plain")), Some(user_agent_of(request.headers))),
        ),
{
    broadcast use vstd::string::is_ascii_spec_bytes;

    reveal_strlit("/");
    reveal_strlit("/user-agent");
    assert("/".is_ascii() && "/user-agent".is_ascii());
    assert(wire("/").len() != wire("/user-agent").len());
}

/// A file that was uploaded comes back on download. With one base
/// directory, `POST /files/{name}` asks for a write of the request body to
/// the very path that `GET /files/{name}` asks to read; a write that went
/// well is answered with `201`, and a read that returns the bytes written is
/// answered with `200` and exactly those bytes as the body.
pub proof fn upload_then_download(post: RequestModel, get: RequestModel, dir: Seq<u8>, name: Seq<u8>)
    requires
        post.method == HttpMethod::POST,
        get.method == HttpMethod::GET,
        post.path == wire("/files/") + name,
        get.path == post.path,
    ensures
        plan(post, Some(dir)) == (StepModel::WriteFile {
            path: joined_path(dir, name),
            content: post.content,
        }),
        plan(get, Some(dir)) == (StepModel::ReadFile { path: joined_path(dir, name) }),
        next(State::AwaitingFileWrite, EventModel::FileWritten(true), Some(dir)) == (
            State::Closed,
            ActionModel::Send(encode(created_model())),
        ),
        next(State::AwaitingFileRead, EventModel::FileRead(Some(post.content)), Some(dir)) == (
            State::Closed,
            ActionModel::Send(encode(file_response(Some(post.content)))),
        ),
        file_response(Some(post.content)).status_code == 200,
        body_of(file_response(Some(post.content))) == post.content,
{
    broadcast use vstd::string::is_ascii_spec_bytes;

    reveal_strlit("/");
    reveal_strlit("/user-agent");
    reveal_strlit("/echo/");
    reveal_strlit("/files/");
    assert("/".is_ascii() && "/user-agent".is_ascii() && "/echo/".is_ascii() && "/files/".is_ascii());
    let path = post.path;
    assert(path.len() >= 7);
    assert(path[1] == wire("/files/")[1]);
    assert(wire("/user-agent")[1] != path[1]);
    assert(!wire("/echo/").is_prefix_of(path)) by {
        if wire("/echo/").is_prefix_of(path) {
            assert(path.subrange(0, 6)[1] == wire("/echo/")[1]);
        }
    }
    assert(wire("/files/") =~= path.subrange(0, 7));
    assert(path.skip(7) =~= name);
}

/// Encoding is a function of the response: two responses with the same
/// content encode to the same bytes, so encoding one response twice gives
/// the same bytes twice.
pub proof fn encode_is_deterministic(a: crate::response::HttpResponse, b: crate::response::HttpResponse)
    requires
        a@ == b@,
    ensures
        encode(a@) == encode(b@),
{
}

/// A read whose first line has fewer than three tokens does not decode, and
/// the connection is closed without a response.
pub proof fn short_request_line_fails(data: Seq<u8>, dir: Option<Seq<u8>>)
    requires
        lines(data).len() == 0 || tokens(lines(data)[0]).len() < 3,
    ensures
        decode(data) == Err::<RequestModel, DecodeError>(DecodeError::MalformedRequestLine),
        next(State::AwaitingRequest, EventModel::Received(data), dir) == (
            State::Closed,
            ActionModel::Close,
        ),
{
}

/// A read that decodes to a request whose response is known at once is
/// answered with the encoding of that response, and the connection is over.
pub proof fn response_is_sent(data: Seq<u8>, dir: Option<Seq<u8>>, request: RequestModel, response: ResponseModel)
    requires
        decode(data) == Ok::<RequestModel, DecodeError>(request),
        plan(request, dir) == StepModel::Respond(response),
    ensures
        next(State::AwaitingRequest, EventModel::Received(data), dir) == (
            State::Closed,
            ActionModel::Send(encode(response)),
        ),
{
}

/// The `Content-Length` line of every response carries the exact length of
/// the body that follows the blank line, also where the body is absent.
pub proof fn content_length_is_exact(m: ResponseModel)
    ensures
        encode(m) == status_line(m) + header_block(m) + wire("Content-Length: ") + decimal(
            body_of(m).len(),
        ) + wire("\r\n\r\n") + body_of(m),
        m.content is None ==> body_of(m).len() == 0,
{
    reveal_strlit("\r\n");
    reveal_strlit("\r\n\r\n");
    wire_of_joined("\r\n\r\n", "\r\n", "\r\n");
    assert(encode(m) =~= status_line(m) + header_block(m) + wire("Content-Length: ") + decimal(
        body_of(m).len(),
    ) + wire("\r\n\r\n") + body_of(m));
}

} // verus!
