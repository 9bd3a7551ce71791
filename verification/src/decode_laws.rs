//! What holds of the decoder: of lines, of tokens, and of the requests that
//! are written as the protocol gives them.

use vstd::prelude::*;
use crate::request::{
    blank_count,
    body_bytes,
    decode,
    header_lines,
    is_space,
    lemma_line_end,
    lemma_run_end,
    line_end,
    lines,
    lines_from,
    method_of,
    run_end,
    tokens,
    tokens_from,
    DecodeError,
    HttpMethod,
    RequestModel,
};
use crate::response::join_lines;
use crate::text::wire;

verus! {

/// No line holds a line feed.
pub proof fn lines_hold_no_line_feed(s: Seq<u8>, from: int)
    requires
        0 <= from <= s.len(),
    ensures
        forall|i: int, j: int|
            0 <= i < lines_from(s, from).len() && 0 <= j < lines_from(s, from)[i].len()
                ==> #[trigger] lines_from(s, from)[i][j] != 10,
    decreases s.len() - from,
{
    if from < s.len() {
        let end = line_end(s, from);
        lemma_line_end(s, from);
        let ls = lines_from(s, from);
        if end < s.len() {
            lines_hold_no_line_feed(s, end + 1);
            let rest = lines_from(s, end + 1);
            assert forall|i: int, j: int| 0 <= i < ls.len() && 0 <= j < ls[i].len() implies #[trigger] ls[i][j]
                != 10 by {
                if i == 0 {
                    assert(ls[0][j] == s[from + j]);
                } else {
                    assert(ls[i] == rest[i - 1]);
                }
            }
        } else {
            assert forall|i: int, j: int| 0 <= i < ls.len() && 0 <= j < ls[i].len() implies #[trigger] ls[i][j]
                != 10 by {
                assert(ls[0][j] == s[from + j]);
            }
        }
    }
}

/// Every token holds at least one byte, and none that is whitespace.
pub proof fn tokens_hold_no_whitespace(s: Seq<u8>, from: int)
    requires
        0 <= from <= s.len(),
    ensures
        forall|i: int|
            0 <= i < tokens_from(s, from).len() ==> (#[trigger] tokens_from(s, from)[i]).len() > 0,
        forall|i: int, j: int|
            0 <= i < tokens_from(s, from).len() && 0 <= j < tokens_from(s, from)[i].len()
                ==> !is_space(#[trigger] tokens_from(s, from)[i][j]),
    decreases s.len() - from,
{
    let start = run_end(s, from, true);
    lemma_run_end(s, from, true);
    if start < s.len() {
        let end = run_end(s, start, false);
        lemma_run_end(s, start, false);
        tokens_hold_no_whitespace(s, end);
        let ts = tokens_from(s, from);
        let rest = tokens_from(s, end);
        assert forall|i: int| 0 <= i < ts.len() implies (#[trigger] ts[i]).len() > 0 by {
            if i > 0 {
                assert(ts[i] == rest[i - 1]);
            }
        }
        assert forall|i: int, j: int| 0 <= i < ts.len() && 0 <= j < ts[i].len() implies !is_space(
            #[trigger] ts[i][j],
        ) by {
            if i == 0 {
                assert(ts[0][j] == s[start + j]);
            } else {
                assert(ts[i] == rest[i - 1]);
            }
        }
    }
}

/// A word: at least one byte, and none that is whitespace.
pub open spec fn is_word(w: Seq<u8>) -> bool {
    w.len() > 0 && forall|j: int| 0 <= j < w.len() ==> !is_space(#[trigger] w[j])
}

/// Whether no byte of `s` is a line feed.
pub open spec fn has_no_line_feed(s: Seq<u8>) -> bool {
    forall|j: int| 0 <= j < s.len() ==> #[trigger] s[j] != 10
}

/// The line that begins at `from` ends at `k` when no line feed stands
/// before `k`, and `k` holds one or is the end of `s`.
pub proof fn line_end_is(s: Seq<u8>, from: int, k: int)
    requires
        0 <= from <= k <= s.len(),
        forall|i: int| from <= i < k ==> s[i] != 10,
        k < s.len() ==> s[k] == 10,
    ensures
        line_end(s, from) == k,
    decreases k - from,
{
    if from < k {
        line_end_is(s, from + 1, k);
    }
}

/// The run that begins at `from` ends at `k` when only bytes of its class
/// stand before `k`, and `k` holds one of the other class or is the end of
/// `s`.
pub proof fn run_end_is(s: Seq<u8>, from: int, k: int, space: bool)
    requires
        0 <= from <= k <= s.len(),
        forall|i: int| from <= i < k ==> is_space(s[i]) == space,
        k < s.len() ==> is_space(s[k]) != space,
    ensures
        run_end(s, from, space) == k,
    decreases k - from,
{
    if from < k {
        run_end_is(s, from + 1, k, space);
    }
}

proof fn line_end_of_suffix(s: Seq<u8>, from: int, i: int)
    requires
        0 <= from <= i <= s.len(),
    ensures
        line_end(s.skip(from), i - from) == line_end(s, i) - from,
    decreases s.len() - i,
{
    if i < s.len() {
        assert(s.skip(from)[i - from] == s[i]);
        if s[i] != 10 {
            line_end_of_suffix(s, from, i + 1);
        }
    }
}

/// The lines of a suffix of `s` are the lines of `s` from where the suffix
/// begins.
pub proof fn lines_of_suffix(s: Seq<u8>, from: int, i: int)
    requires
        0 <= from <= i <= s.len(),
    ensures
        lines_from(s.skip(from), i - from) == lines_from(s, i),
    decreases s.len() - i,
{
    if i < s.len() {
        let end = line_end(s, i);
        lemma_line_end(s, i);
        line_end_of_suffix(s, from, i);
        if end < s.len() {
            lines_of_suffix(s, from, end + 1);
            assert(s.skip(from).subrange(i - from, end - from) =~= s.subrange(i, end));
        } else {
            assert(s.skip(from).subrange(i - from, s.skip(from).len() as int) =~= s.subrange(
                i,
                s.len() as int,
            ));
        }
    }
}

/// A line that is written with its line break, and then more: the lines are
/// that line, and the lines of what follows.
pub proof fn lines_of_line_then_rest(line: Seq<u8>, rest: Seq<u8>)
    requires
        has_no_line_feed(line),
    ensures
        lines(line + wire("\r\n") + rest) == seq![line] + lines(rest),
{
    broadcast use vstd::string::is_ascii_spec_bytes;

    reveal_strlit("\r\n");
    assert("\r\n".is_ascii());
    let s = line + wire("\r\n") + rest;
    let end: int = line.len() as int + 1;
    assert(s[end - 1] == 13 && s[end] == 10);
    assert forall|i: int| 0 <= i < end implies s[i] != 10 by {
        if i < line.len() {
            assert(s[i] == line[i]);
        }
    }
    line_end_is(s, 0, end);
    assert(s.subrange(0, end) =~= line.push(13));
    assert(line.push(13).drop_last() =~= line);
    lines_of_suffix(s, end + 1, end + 1);
    assert(s.skip(end + 1) =~= rest);
}

/// What is written after the last line break is one line, unless it is
/// nothing.
pub proof fn lines_of_last_line(last: Seq<u8>)
    requires
        has_no_line_feed(last),
    ensures
        lines(last) == if last.len() == 0 {
            Seq::<Seq<u8>>::empty()
        } else {
            seq![last]
        },
{
    if last.len() > 0 {
        line_end_is(last, 0, last.len() as int);
        assert(last.subrange(0, last.len() as int) =~= last);
    }
}

/// Lines that are written each with its line break, and then more: the lines
/// are those lines, and the lines of what follows.
pub proof fn lines_of_joined(written: Seq<Seq<u8>>, rest: Seq<u8>)
    requires
        forall|i: int| 0 <= i < written.len() ==> has_no_line_feed(#[trigger] written[i]),
    ensures
        lines(join_lines(written) + rest) == written + lines(rest),
    decreases written.len(),
{
    if written.len() == 0 {
        assert(join_lines(written) + rest =~= rest);
        assert(written + lines(rest) =~= lines(rest));
    } else {
        let init = written.drop_last();
        let last = written.last();
        let more = last + wire("\r\n") + rest;
        assert(join_lines(written) + rest =~= join_lines(init) + more);
        assert forall|i: int| 0 <= i < init.len() implies has_no_line_feed(#[trigger] init[i]) by {
            assert(init[i] == written[i]);
        }
        lines_of_joined(init, more);
        lines_of_line_then_rest(last, rest);
        assert(init + (seq![last] + lines(rest)) =~= written + lines(rest));
    }
}

/// Among lines of which none is blank there is no body: every line is a
/// header line.
pub proof fn header_lines_before_the_blank(ls: Seq<Seq<u8>>)
    requires
        forall|i: int| 0 <= i < ls.len() ==> (#[trigger] ls[i]).len() > 0,
    ensures
        blank_count(ls) == 0,
        header_lines(ls) == ls,
        body_bytes(ls) == Seq::<u8>::empty(),
    decreases ls.len(),
{
    if ls.len() > 0 {
        let init = ls.drop_last();
        assert forall|i: int| 0 <= i < init.len() implies (#[trigger] init[i]).len() > 0 by {
            assert(init[i] == ls[i]);
        }
        header_lines_before_the_blank(init);
        assert(init.push(ls.last()) =~= ls);
    } else {
        assert(header_lines(ls) =~= ls);
    }
}

/// Header lines, one blank line, then the body on one line: the header
/// lines and the body are found as they were written.
pub proof fn headers_and_body_are_found(headers: Seq<Seq<u8>>, body: Seq<u8>)
    requires
        forall|i: int| 0 <= i < headers.len() ==> (#[trigger] headers[i]).len() > 0,
    ensures
        ({
            let ls = headers + seq![Seq::<u8>::empty()] + if body.len() == 0 {
                Seq::<Seq<u8>>::empty()
            } else {
                seq![body]
            };
            &&& header_lines(ls) == headers
            &&& body_bytes(ls) == body
        }),
{
    let blank = Seq::<u8>::empty();
    let upto = headers + seq![blank];
    header_lines_before_the_blank(headers);
    assert(upto.drop_last() =~= headers);
    assert(upto.last() == blank);
    assert(blank_count(upto) == 1);
    assert(header_lines(upto) == headers);
    assert(body_bytes(upto) =~= Seq::<u8>::empty());
    if body.len() == 0 {
        assert(upto + Seq::<Seq<u8>>::empty() =~= upto);
        assert(body =~= Seq::<u8>::empty());
    } else {
        let ls = upto + seq![body];
        assert(ls.drop_last() =~= upto);
        assert(ls.last() == body);
        assert(body_bytes(ls) =~= body);
    }
}

/// Three words with one space between them are three tokens.
pub proof fn tokens_of_three_words(a: Seq<u8>, b: Seq<u8>, c: Seq<u8>)
    requires
        is_word(a),
        is_word(b),
        is_word(c),
    ensures
        tokens(a + wire(" ") + b + wire(" ") + c) == seq![a, b, c],
{
    broadcast use vstd::string::is_ascii_spec_bytes;

    reveal_strlit(" ");
    assert(" ".is_ascii());
    let s = a + wire(" ") + b + wire(" ") + c;
    let a_end = a.len() as int;
    let b_start: int = a_end + 1;
    let b_end: int = b_start + b.len();
    let c_start: int = b_end + 1;
    let c_end: int = c_start + c.len();
    assert(s.len() == c_end);
    assert forall|i: int| 0 <= i < a_end implies !is_space(s[i]) by {
        assert(s[i] == a[i]);
    }
    assert(s[a_end] == 32);
    assert forall|i: int| b_start <= i < b_end implies !is_space(s[i]) by {
        assert(s[i] == b[i - b_start]);
    }
    assert(s[b_end] == 32);
    assert forall|i: int| c_start <= i < c_end implies !is_space(s[i]) by {
        assert(s[i] == c[i - c_start]);
    }
    run_end_is(s, 0, 0, true);
    run_end_is(s, 0, a_end, false);
    run_end_is(s, a_end, b_start, true);
    run_end_is(s, b_start, b_end, false);
    run_end_is(s, b_end, c_start, true);
    run_end_is(s, c_start, c_end, false);
    run_end_is(s, c_end, c_end, true);
    assert(s.subrange(0, a_end) =~= a);
    assert(s.subrange(b_start, b_end) =~= b);
    assert(s.subrange(c_start, c_end) =~= c);
    assert(tokens_from(s, c_end) =~= Seq::<Seq<u8>>::empty());
    assert(tokens_from(s, b_end) =~= seq![c]);
    assert(tokens_from(s, a_end) =~= seq![b, c]);
    assert(tokens_from(s, 0) =~= seq![a, b, c]);
}

/// A token that names a method is a word.
pub proof fn method_names_are_words(token: Seq<u8>)
    requires
        method_of(token) is Some,
    ensures
        is_word(token),
{
    broadcast use vstd::string::is_ascii_spec_bytes;

    reveal_strlit("GET");
    reveal_strlit("POST");
    reveal_strlit("PUT");
    reveal_strlit("DELETE");
    reveal_strlit("UPDATE");
    assert("GET".is_ascii() && "POST".is_ascii() && "PUT".is_ascii() && "DELETE".is_ascii()
        && "UPDATE".is_ascii());
}

/// A request that is written as the protocol gives it decodes to what was
/// written: the request line of method, path and version with one space
/// between them, each header line, a blank line, and a body on one line,
/// every line but the body with its line break.
pub proof fn written_request_decodes(
    token: Seq<u8>,
    method: HttpMethod,
    path: Seq<u8>,
    version: Seq<u8>,
    headers: Seq<Seq<u8>>,
    body: Seq<u8>,
)
    requires
        method_of(token) == Some(method),
        is_word(path),
        is_word(version),
        forall|i: int|
            0 <= i < headers.len() ==> (#[trigger] headers[i]).len() > 0 && has_no_line_feed(
                headers[i],
            ),
        has_no_line_feed(body),
    ensures
        decode(
            token + wire(" ") + path + wire(" ") + version + wire("\r\n") + join_lines(headers)
                + wire("\r\n") + body,
        ) == Ok::<RequestModel, DecodeError>(
            RequestModel { method, path, headers, content: body },
        ),
{
    broadcast use vstd::string::is_ascii_spec_bytes;

    reveal_strlit(" ");
    assert(" ".is_ascii());
    method_names_are_words(token);
    let first = token + wire(" ") + path + wire(" ") + version;
    let blank = Seq::<u8>::empty();
    let after_headers = wire("\r\n") + body;
    let after_first = join_lines(headers) + after_headers;
    let data = first + wire("\r\n") + after_first;
    assert(data =~= token + wire(" ") + path + wire(" ") + version + wire("\r\n") + join_lines(
        headers,
    ) + wire("\r\n") + body);

    assert(has_no_line_feed(first)) by {
        assert forall|j: int| 0 <= j < first.len() implies #[trigger] first[j] != 10 by {
            let p: int = token.len() as int + 1;
            let v: int = p + path.len() + 1;
            if j < token.len() {
                assert(first[j] == token[j]);
            } else if j == token.len() {
            } else if j < p + path.len() {
                assert(first[j] == path[j - p]);
            } else if j == p + path.len() {
            } else {
                assert(first[j] == version[j - v]);
            }
        }
    }
    lines_of_line_then_rest(first, after_first);
    lines_of_joined(headers, after_headers);
    assert(after_headers =~= blank + wire("\r\n") + body);
    lines_of_line_then_rest(blank, body);
    lines_of_last_line(body);
    let last = if body.len() == 0 {
        Seq::<Seq<u8>>::empty()
    } else {
        seq![body]
    };
    let rest = headers + seq![blank] + last;
    assert(lines(after_first) =~= rest);
    let ls = lines(data);
    assert(ls =~= seq![first] + rest);
    assert(ls[0] == first);
    assert(ls.skip(1) =~= rest);
    tokens_of_three_words(token, path, version);
    headers_and_body_are_found(headers, body);
}

} // verus!
