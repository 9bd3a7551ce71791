//! Decoding of one request from the bytes of a single read.
//!
//! The input is cut into lines at line feeds, the first line is cut into
//! whitespace-separated tokens, and the remaining lines are sorted into header
//! lines and body bytes by the number of blank lines seen so far.

use vstd::prelude::*;
use crate::text::{append, copy_range, rows, same_bytes, wire};

verus! {

/// The request methods that the decoder recognises.
#[derive(Clone, Copy, Debug, PartialEq, Eq, Structural)]
pub enum HttpMethod {
    GET,
    POST,
    PUT,
    DELETE,
    UPDATE,
}

/// Why a read could not be decoded into a request.
#[derive(Clone, Copy, Debug, PartialEq, Eq, Structural)]
pub enum DecodeError {
    /// There is no first line, or it has fewer than three tokens.
    MalformedRequestLine,
    /// The first token names no recognised method.
    UnsupportedMethod,
}

/// A decoded request.
#[derive(Clone, Debug)]
pub struct HttpRequest {
    pub method: HttpMethod,
    pub path: Vec<u8>,
    pub headers: Vec<Vec<u8>>,
    pub content: Vec<u8>,
}

/// The mathematical content of a request.
pub struct RequestModel {
    pub method: HttpMethod,
    pub path: Seq<u8>,
    pub headers: Seq<Seq<u8>>,
    pub content: Seq<u8>,
}

impl View for HttpRequest {
    type V = RequestModel;

    open spec fn view(&self) -> RequestModel {
        RequestModel {
            method: self.method,
            path: self.path@,
            headers: rows(self.headers@),
            content: self.content@,
        }
    }
}

/// The method that a token names, if any.
pub open spec fn method_of(token: Seq<u8>) -> Option<HttpMethod> {
    if token == wire("GET") {
        Some(HttpMethod::GET)
    } else if token == wire("POST") {
        Some(HttpMethod::POST)
    } else if token == wire("PUT") {
        Some(HttpMethod::PUT)
    } else if token == wire("DELETE") {
        Some(HttpMethod::DELETE)
    } else if token == wire("UPDATE") {
        Some(HttpMethod::UPDATE)
    } else {
        None
    }
}

/// Whitespace as it separates the tokens of the request line.
pub open spec fn is_space(b: u8) -> bool {
    b == 32 || (9 <= b && b <= 13)
}

/// The first index at or after `from` that holds a line feed, or the length
/// of `s` when there is none.
pub open spec fn line_end(s: Seq<u8>, from: int) -> int
    decreases s.len() - from,
{
    if 0 <= from < s.len() && s[from] != 10 {
        line_end(s, from + 1)
    } else {
        from
    }
}

/// The first index at or after `from` whose byte is not of the given class
/// (whitespace or not), or the length of `s` when there is none.
pub open spec fn run_end(s: Seq<u8>, from: int, space: bool) -> int
    decreases s.len() - from,
{
    if 0 <= from < s.len() && is_space(s[from]) == space {
        run_end(s, from + 1, space)
    } else {
        from
    }
}

/// Where a line ends: within `s`, at a line feed or at the end of `s`, with
/// no line feed before it.
pub proof fn lemma_line_end(s: Seq<u8>, from: int)
    requires
        0 <= from <= s.len(),
    ensures
        from <= line_end(s, from) <= s.len(),
        line_end(s, from) < s.len() ==> s[line_end(s, from)] == 10,
        forall|i: int| from <= i < line_end(s, from) ==> s[i] != 10,
    decreases s.len() - from,
{
    if from < s.len() && s[from] != 10 {
        lemma_line_end(s, from + 1);
    }
}

/// Where a run ends: within `s`, at a byte of the other class or at the end
/// of `s`, with only bytes of the given class before it.
pub proof fn lemma_run_end(s: Seq<u8>, from: int, space: bool)
    requires
        0 <= from <= s.len(),
    ensures
        from <= run_end(s, from, space) <= s.len(),
        run_end(s, from, space) < s.len() ==> is_space(s[run_end(s, from, space)]) != space,
        forall|i: int| from <= i < run_end(s, from, space) ==> is_space(s[i]) == space,
    decreases s.len() - from,
{
    if from < s.len() && is_space(s[from]) == space {
        lemma_run_end(s, from + 1, space);
    }
}

/// A line without the carriage return that stood before its line feed.
pub open spec fn without_cr(line: Seq<u8>) -> Seq<u8> {
    if line.len() > 0 && line.last() == 13 {
        line.drop_last()
    } else {
        line
    }
}

/// The lines of `s` from index `from` on. A line ends at a line feed; the
/// line feed, and a carriage return directly before it, are not part of the
/// line. What follows the last line feed is a line of its own, taken as it is,
/// unless nothing follows.
pub open spec fn lines_from(s: Seq<u8>, from: int) -> Seq<Seq<u8>>
    decreases s.len() - from,
    when 0 <= from
{
    if from >= s.len() {
        Seq::empty()
    } else {
        let end = line_end(s, from);
        proof {
            lemma_line_end(s, from);
        }
        if end >= s.len() {
            seq![s.subrange(from, s.len() as int)]
        } else {
            seq![without_cr(s.subrange(from, end))] + lines_from(s, end + 1)
        }
    }
}

/// The lines of `s`.
pub open spec fn lines(s: Seq<u8>) -> Seq<Seq<u8>> {
    lines_from(s, 0)
}

/// The tokens of `s` from index `from` on: the maximal runs of bytes that are
/// not whitespace, in order.
pub open spec fn tokens_from(s: Seq<u8>, from: int) -> Seq<Seq<u8>>
    decreases s.len() - from,
    when 0 <= from
{
    let start = run_end(s, from, true);
    if start >= s.len() {
        Seq::empty()
    } else {
        let end = run_end(s, start, false);
        proof {
            lemma_run_end(s, from, true);
            lemma_run_end(s, start, false);
        }
        seq![s.subrange(start, end)] + tokens_from(s, end)
    }
}

/// The whitespace-separated tokens of `s`.
pub open spec fn tokens(s: Seq<u8>) -> Seq<Seq<u8>> {
    tokens_from(s, 0)
}

/// How many of the lines are blank.
pub open spec fn blank_count(ls: Seq<Seq<u8>>) -> nat
    decreases ls.len(),
{
    if ls.len() == 0 {
        0
    } else {
        blank_count(ls.drop_last()) + if ls.last().len() == 0 {
            1nat
        } else {
            0nat
        }
    }
}

/// The header lines among `ls`: the lines that are not blank and do not
/// stand after exactly one blank line.
pub open spec fn header_lines(ls: Seq<Seq<u8>>) -> Seq<Seq<u8>>
    decreases ls.len(),
{
    if ls.len() == 0 {
        Seq::empty()
    } else if ls.last().len() > 0 && blank_count(ls.drop_last()) != 1 {
        header_lines(ls.drop_last()).push(ls.last())
    } else {
        header_lines(ls.drop_last())
    }
}

/// The body found in `ls`: the lines that stand after exactly one blank
/// line, joined with nothing between them.
pub open spec fn body_bytes(ls: Seq<Seq<u8>>) -> Seq<u8>
    decreases ls.len(),
{
    if ls.len() == 0 {
        Seq::empty()
    } else if blank_count(ls.drop_last()) == 1 {
        body_bytes(ls.drop_last()) + ls.last()
    } else {
        body_bytes(ls.drop_last())
    }
}

/// What a read decodes to.
pub open spec fn decode(data: Seq<u8>) -> Result<RequestModel, DecodeError> {
    let ls = lines(data);
    if ls.len() == 0 || tokens(ls[0]).len() < 3 {
        Err(DecodeError::MalformedRequestLine)
    } else {
        match method_of(tokens(ls[0])[0]) {
            None => Err(DecodeError::UnsupportedMethod),
            Some(method) => Ok(
                RequestModel {
                    method,
                    path: tokens(ls[0])[1],
                    headers: header_lines(ls.skip(1)),
                    content: body_bytes(ls.skip(1)),
                },
            ),
        }
    }
}

impl HttpMethod {
    /// Reads a method token.
    pub fn parse_method(method_str: &[u8]) -> (r: Result<HttpMethod, DecodeError>)
        ensures
            r == match method_of(method_str@) {
                Some(method) => Ok::<HttpMethod, DecodeError>(method),
                None => Err(DecodeError::UnsupportedMethod),
            },
    {
        if same_bytes(method_str, "GET".as_bytes()) {
            Ok(HttpMethod::GET)
        } else if same_bytes(method_str, "POST".as_bytes()) {
            Ok(HttpMethod::POST)
        } else if same_bytes(method_str, "PUT".as_bytes()) {
            Ok(HttpMethod::PUT)
        } else if same_bytes(method_str, "DELETE".as_bytes()) {
            Ok(HttpMethod::DELETE)
        } else if same_bytes(method_str, "UPDATE".as_bytes()) {
            Ok(HttpMethod::UPDATE)
        } else {
            Err(DecodeError::UnsupportedMethod)
        }
    }
}

/// Finds the end of the line that begins at `from`.
fn find_line_end(s: &[u8], from: usize) -> (end: usize)
    requires
        from <= s@.len(),
    ensures
        end == line_end(s@, from as int),
        from <= end <= s@.len(),
{
    let mut i: usize = from;
    while i < s.len() && s[i] != 10
        invariant
            from <= i <= s@.len(),
            line_end(s@, from as int) == line_end(s@, i as int),
        decreases s@.len() - i,
    {
        i = i + 1;
    }
    i
}

/// Finds the end of the run of bytes of one class that begins at `from`.
fn find_run_end(s: &[u8], from: usize, space: bool) -> (end: usize)
    requires
        from <= s@.len(),
    ensures
        end == run_end(s@, from as int, space),
        from <= end <= s@.len(),
{
    let mut i: usize = from;
    while i < s.len() && is_space_byte(s[i]) == space
        invariant
            from <= i <= s@.len(),
            run_end(s@, from as int, space) == run_end(s@, i as int, space),
        decreases s@.len() - i,
    {
        i = i + 1;
    }
    i
}

/// Whether a byte is whitespace.
pub fn is_space_byte(b: u8) -> (r: bool)
    ensures
        r == is_space(b),
{
    b == 32 || (9 <= b && b <= 13)
}

/// Cuts `data` into its lines.
pub fn split_lines(data: &[u8]) -> (out: Vec<Vec<u8>>)
    ensures
        rows(out@) == lines(data@),
{
    let mut out: Vec<Vec<u8>> = Vec::new();
    let mut pos: usize = 0;
    assert(rows(out@) =~= Seq::<Seq<u8>>::empty());
    while pos < data.len()
        invariant
            pos <= data@.len(),
            lines(data@) == rows(out@) + lines_from(data@, pos as int),
        decreases data@.len() - pos,
    {
        let end = find_line_end(data, pos);
        let ghost before = rows(out@);
        if end >= data.len() {
            let line = copy_range(data, pos, data.len());
            out.push(line);
            assert(rows(out@) =~= before.push(line@));
            assert(lines_from(data@, data@.len() as int) =~= Seq::<Seq<u8>>::empty());
            assert(before + lines_from(data@, pos as int) =~= rows(out@) + lines_from(
                data@,
                data@.len() as int,
            ));
            pos = data.len();
        } else {
            let stop = if end > pos && data[end - 1] == 13 {
                end - 1
            } else {
                end
            };
            let line = copy_range(data, pos, stop);
            assert(line@ =~= without_cr(data@.subrange(pos as int, end as int)));
            out.push(line);
            assert(rows(out@) =~= before.push(line@));
            assert(before + lines_from(data@, pos as int) =~= rows(out@) + lines_from(
                data@,
                end + 1,
            ));
            pos = end + 1;
        }
    }
    assert(lines_from(data@, pos as int) =~= Seq::<Seq<u8>>::empty());
    assert(rows(out@) + lines_from(data@, pos as int) =~= rows(out@));
    out
}

/// Cuts `line` into its whitespace-separated tokens.
pub fn split_whitespace(line: &[u8]) -> (out: Vec<Vec<u8>>)
    ensures
        rows(out@) == tokens(line@),
{
    let mut out: Vec<Vec<u8>> = Vec::new();
    let mut pos: usize = 0;
    assert(rows(out@) =~= Seq::<Seq<u8>>::empty());
    loop
        invariant
            pos <= line@.len(),
            tokens(line@) == rows(out@) + tokens_from(line@, pos as int),
        ensures
            tokens(line@) == rows(out@),
        decreases line@.len() - pos,
    {
        let start = find_run_end(line, pos, true);
        if start >= line.len() {
            assert(tokens_from(line@, pos as int) =~= Seq::<Seq<u8>>::empty());
            assert(rows(out@) + tokens_from(line@, pos as int) =~= rows(out@));
            break;
        }
        let end = find_run_end(line, start, false);
        proof {
            lemma_run_end(line@, start as int, false);
        }
        let ghost before = rows(out@);
        let token = copy_range(line, start, end);
        out.push(token);
        assert(rows(out@) =~= before.push(token@));
        assert(before + tokens_from(line@, pos as int) =~= rows(out@) + tokens_from(
            line@,
            end as int,
        ));
        pos = end;
    }
    out
}

impl HttpRequest {
    /// Decodes the bytes of one read into a request.
    ///
    /// Fails with `MalformedRequestLine` exactly when there is no first line
    /// or it has fewer than three tokens, and with `UnsupportedMethod` exactly
    /// when there are three tokens and the first names no method.
    pub fn parse_request(data: &[u8]) -> (r: Result<HttpRequest, DecodeError>)
        ensures
            match r {
                Ok(request) => decode(data@) == Ok::<RequestModel, DecodeError>(request@),
                Err(e) => decode(data@) == Err::<RequestModel, DecodeError>(e),
            },
            lines(data@).len() == 0 || tokens(lines(data@)[0]).len() < 3 ==> (r matches Err(e)
                && e == DecodeError::MalformedRequestLine),
    {
        let all = split_lines(data);
        if all.len() == 0 {
            return Err(DecodeError::MalformedRequestLine);
        }
        assert(rows(all@)[0] == all@[0]@);
        let parts = split_whitespace(all[0].as_slice());
        if parts.len() < 3 {
            return Err(DecodeError::MalformedRequestLine);
        }
        assert(rows(parts@)[0] == parts@[0]@);
        assert(rows(parts@)[1] == parts@[1]@);
        let method = match HttpMethod::parse_method(parts[0].as_slice()) {
            Ok(method) => method,
            Err(e) => {
                return Err(e);
            },
        };
        let path = copy_range(parts[1].as_slice(), 0, parts[1].len());
        assert(path@ =~= parts@[1]@);

        let ghost rest = rows(all@).skip(1);
        let mut headers: Vec<Vec<u8>> = Vec::new();
        let mut content: Vec<u8> = Vec::new();
        let mut blanks: usize = 0;
        let mut i: usize = 1;
        assert(rest.take(0) =~= Seq::<Seq<u8>>::empty());
        assert(rows(headers@) =~= Seq::<Seq<u8>>::empty());
        while i < all.len()
            invariant
                1 <= i <= all@.len(),
                rest == rows(all@).skip(1),
                blanks <= i,
                blanks == blank_count(rest.take(i - 1)),
                rows(headers@) == header_lines(rest.take(i - 1)),
                content@ == body_bytes(rest.take(i - 1)),
            decreases all@.len() - i,
        {
            let line = all[i].as_slice();
            proof {
                assert(rest.take(i as int).drop_last() =~= rest.take(i - 1));
                assert(rest.take(i as int).last() == line@);
            }
            if line.len() == 0 {
                assert(content@ + line@ =~= content@);
                blanks = blanks + 1;
            } else if blanks == 1 {
                append(&mut content, line);
            } else {
                let ghost before = rows(headers@);
                let header = copy_range(line, 0, line.len());
                assert(header@ =~= line@);
                headers.push(header);
                assert(rows(headers@) =~= before.push(line@));
            }
            i = i + 1;
        }
        assert(rest.take(i - 1) =~= rest);
        let request = HttpRequest { method, path, headers, content };
        assert(request@.headers == header_lines(rest));
        Ok(request)
    }
}

} // verus!
