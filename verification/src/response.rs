//! Responses and their encoding into wire bytes.

use vstd::prelude::*;
use crate::text::{append, decimal, rows, to_decimal, to_wire, wire};

verus! {

/// A response, as a handler builds it.
#[derive(Clone, Debug)]
pub struct HttpResponse {
    pub http_version: Vec<u8>,
    pub status_code: u16,
    pub reason: Vec<u8>,
    pub headers: Option<Vec<Vec<u8>>>,
    pub content: Option<Vec<u8>>,
}

/// The mathematical content of a response.
pub struct ResponseModel {
    pub http_version: Seq<u8>,
    pub status_code: u16,
    pub reason: Seq<u8>,
    pub headers: Option<Seq<Seq<u8>>>,
    pub content: Option<Seq<u8>>,
}

/// The header lines that an optional header list holds.
pub open spec fn header_rows(headers: Option<Vec<Vec<u8>>>) -> Option<Seq<Seq<u8>>> {
    match headers {
        Some(h) => Some(rows(h@)),
        None => None,
    }
}

/// The bytes that an optional body holds.
pub open spec fn content_bytes(content: Option<Vec<u8>>) -> Option<Seq<u8>> {
    match content {
        Some(c) => Some(c@),
        None => None,
    }
}

impl View for HttpResponse {
    type V = ResponseModel;

    open spec fn view(&self) -> ResponseModel {
        ResponseModel {
            http_version: self.http_version@,
            status_code: self.status_code,
            reason: self.reason@,
            headers: header_rows(self.headers),
            content: content_bytes(self.content),
        }
    }
}

/// A response with the fixed protocol version and nothing else set.
pub open spec fn plain(status_code: u16, reason: Seq<u8>) -> ResponseModel {
    ResponseModel {
        http_version: wire("HTTP/1.1"),
        status_code,
        reason,
        headers: None,
        content: None,
    }
}

/// The `200 OK` response with the given headers and body.
pub open spec fn ok_model(
    headers: Option<Seq<Seq<u8>>>,
    content: Option<Seq<u8>>,
) -> ResponseModel {
    ResponseModel { headers, content, ..plain(200, wire("OK")) }
}

/// The `201 Created` response.
pub open spec fn created_model() -> ResponseModel {
    plain(201, wire("Created"))
}

/// The `404 Not Found` response.
pub open spec fn not_found_model() -> ResponseModel {
    plain(404, wire("Not Found"))
}

/// The `500 Internal Server Error` response.
pub open spec fn internal_server_error_model() -> ResponseModel {
    plain(500, wire("Internal Server Error"))
}

/// Every line followed by a line break, in order.
pub open spec fn join_lines(ls: Seq<Seq<u8>>) -> Seq<u8>
    decreases ls.len(),
{
    if ls.len() == 0 {
        Seq::empty()
    } else {
        join_lines(ls.drop_last()) + ls.last() + wire("\r\n")
    }
}

/// The status line: version, status code and reason, space-separated.
pub open spec fn status_line(m: ResponseModel) -> Seq<u8> {
    m.http_version + wire(" ") + decimal(m.status_code as nat) + wire(" ") + m.reason + wire(
        "\r\n",
    )
}

/// The header lines of a response, each with its line break.
pub open spec fn header_block(m: ResponseModel) -> Seq<u8> {
    match m.headers {
        Some(h) => join_lines(h),
        None => Seq::empty(),
    }
}

/// The body of a response; an absent body is an empty one.
pub open spec fn body_of(m: ResponseModel) -> Seq<u8> {
    match m.content {
        Some(c) => c,
        None => Seq::empty(),
    }
}

/// The `Content-Length` line, which carries the exact length of the body.
pub open spec fn content_length_line(m: ResponseModel) -> Seq<u8> {
    wire("Content-Length: ") + decimal(body_of(m).len()) + wire("\r\n")
}

/// The wire form of a response: status line, header lines, the
/// `Content-Length` line, a blank line, then the body as it is.
pub open spec fn encode(m: ResponseModel) -> Seq<u8> {
    status_line(m) + header_block(m) + content_length_line(m) + wire("\r\n") + body_of(m)
}

impl HttpResponse {
    fn with_status(status_code: u16, reason: &str) -> (r: HttpResponse)
        ensures
            r@ == plain(status_code, wire(reason)),
    {
        HttpResponse {
            http_version: to_wire("HTTP/1.1"),
            status_code,
            reason: to_wire(reason),
            headers: None,
            content: None,
        }
    }

    /// The `200 OK` response with the given headers and body.
    pub fn ok(headers: Option<Vec<Vec<u8>>>, content: Option<Vec<u8>>) -> (r: HttpResponse)
        ensures
            r@ == ok_model(header_rows(headers), content_bytes(content)),
    {
        HttpResponse {
            http_version: to_wire("HTTP/1.1"),
            status_code: 200,
            reason: to_wire("OK"),
            headers,
            content,
        }
    }

    /// The `201 Created` response, without headers or body.
    pub fn created() -> (r: HttpResponse)
        ensures
            r@ == created_model(),
    {
        HttpResponse::with_status(201, "Created")
    }

    /// The `404 Not Found` response, without headers or body.
    pub fn not_found() -> (r: HttpResponse)
        ensures
            r@ == not_found_model(),
    {
        HttpResponse::with_status(404, "Not Found")
    }

    /// The `500 Internal Server Error` response, without headers or body.
    pub fn internal_server_error() -> (r: HttpResponse)
        ensures
            r@ == internal_server_error_model(),
    {
        HttpResponse::with_status(500, "Internal Server Error")
    }

    /// Encodes the response into the bytes of one write.
    pub fn to_byte_vector(&self) -> (out: Vec<u8>)
        ensures
            out@ == encode(self@),
    {
        let mut out: Vec<u8> = Vec::new();
        append(&mut out, self.http_version.as_slice());
        append(&mut out, " ".as_bytes());
        let code = to_decimal(self.status_code as usize);
        append(&mut out, code.as_slice());
        append(&mut out, " ".as_bytes());
        append(&mut out, self.reason.as_slice());
        append(&mut out, "\r\n".as_bytes());
        assert(out@ =~= status_line(self@));

        match &self.headers {
            Some(headers) => {
                let mut i: usize = 0;
                assert(rows(headers@).take(0) =~= Seq::<Seq<u8>>::empty());
                assert(out@ =~= status_line(self@) + join_lines(rows(headers@).take(0)));
                while i < headers.len()
                    invariant
                        i <= headers@.len(),
                        out@ == status_line(self@) + join_lines(rows(headers@).take(i as int)),
                    decreases headers@.len() - i,
                {
                    let ghost before = out@;
                    append(&mut out, headers[i].as_slice());
                    append(&mut out, "\r\n".as_bytes());
                    i = i + 1;
                    proof {
                        let upto = rows(headers@).take(i as int);
                        assert(upto.drop_last() =~= rows(headers@).take(i - 1));
                        assert(upto.last() == headers@[i - 1]@);
                        assert(out@ =~= status_line(self@) + join_lines(upto));
                    }
                }
                assert(rows(headers@).take(i as int) =~= rows(headers@));
            },
            None => {
                assert(out@ =~= status_line(self@) + header_block(self@));
            },
        }
        assert(out@ == status_line(self@) + header_block(self@));

        append(&mut out, "Content-Length: ".as_bytes());
        let length = match &self.content {
            Some(content) => to_decimal(content.len()),
            None => to_decimal(0),
        };
        append(&mut out, length.as_slice());
        append(&mut out, "\r\n".as_bytes());
        append(&mut out, "\r\n".as_bytes());
        assert(out@ =~= status_line(self@) + header_block(self@) + content_length_line(self@)
            + wire("\r\n"));
        match &self.content {
            Some(content) => {
                append(&mut out, content.as_slice());
            },
            None => {
                assert(out@ + body_of(self@) =~= out@);
            },
        }
        out
    }
}

} // verus!
