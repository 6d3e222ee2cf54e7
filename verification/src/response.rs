use vstd::prelude::*;
use crate::error::GatewayError;
use crate::number::{decimal, law_parse_reads_decimal, parse_u64_spec, push_decimal};
use crate::text::{chars_of, lines, split_lines, split_words, string_from_chars, views_of, words};

verus! {

/// The first line of a text, or nothing when it has no lines.
pub open spec fn first_line(s: Seq<char>) -> Seq<char> {
    if lines(s).len() > 0 {
        lines(s)[0]
    } else {
        Seq::empty()
    }
}

/// The status code of an HTTP response: the second word of its first line,
/// or nothing when there is none.
pub open spec fn status_code_of(response: Seq<char>) -> Seq<char> {
    let w = words(first_line(response));
    if w.len() > 1 {
        w[1]
    } else {
        Seq::empty()
    }
}

/// Lines joined, each followed by a line feed.
pub open spec fn block(ls: Seq<Seq<char>>) -> Seq<char>
    decreases ls.len(),
{
    if ls.len() == 0 {
        Seq::empty()
    } else {
        block(ls.drop_last()) + ls.last().push('\n')
    }
}

/// The position of the first empty line, or the number of lines when none
/// is empty.
pub open spec fn first_blank(ls: Seq<Seq<char>>) -> int
    decreases ls.len(),
{
    if ls.len() == 0 {
        0
    } else if ls[0].len() == 0 {
        0
    } else {
        1 + first_blank(ls.drop_first())
    }
}

/// The header that reports the gateway's latency, in milliseconds as given.
pub open spec fn latency_header(latency_ms: Seq<char>) -> Seq<char> {
    "X-Balancer-Latency: "@ + latency_ms + "ms\r\n"@
}

/// A backend's response as the gateway passes it on, or nothing for a
/// response with no lines. The status line comes first, ended by CR LF.
/// Then the header lines, each ended by LF, and, where an empty line ends
/// them, the latency header. Then a CR LF, and after it the lines that
/// follow the empty line, each ended by LF.
pub open spec fn rewritten(response: Seq<char>, latency_ms: Seq<char>) -> Option<Seq<char>> {
    let ls = lines(response);
    if ls.len() == 0 {
        None
    } else {
        let rest = ls.drop_first();
        let k = first_blank(rest);
        let headers = block(rest.take(k)) + (if k < rest.len() {
            latency_header(latency_ms)
        } else {
            Seq::empty()
        });
        let body = if k < rest.len() {
            block(rest.skip(k + 1))
        } else {
            Seq::empty()
        };
        Some(ls[0] + "\r\n"@ + headers + "\r\n"@ + body)
    }
}

pub proof fn lemma_first_blank(ls: Seq<Seq<char>>)
    ensures
        0 <= first_blank(ls) <= ls.len(),
        forall|i: int| 0 <= i < first_blank(ls) ==> (#[trigger] ls[i]).len() > 0,
        first_blank(ls) < ls.len() ==> ls[first_blank(ls)].len() == 0,
    decreases ls.len(),
{
    if ls.len() > 0 && ls[0].len() > 0 {
        let t = ls.drop_first();
        lemma_first_blank(t);
        assert forall|i: int| 0 <= i < first_blank(ls) implies (#[trigger] ls[i]).len() > 0 by {
            if i > 0 {
                assert(ls[i] == t[i - 1]);
            }
        }
    }
}

proof fn lemma_block_push(ls: Seq<Seq<char>>, j: int)
    requires
        0 <= j < ls.len(),
    ensures
        block(ls.take(j + 1)) == block(ls.take(j)) + ls[j].push('\n'),
{
    assert(ls.take(j + 1).drop_last() =~= ls.take(j));
}

fn append_chars(dst: &mut Vec<char>, src: &Vec<char>)
    ensures
        final(dst)@ == old(dst)@ + src@,
{
    let mut i: usize = 0;
    while i < src.len()
        invariant
            i <= src.len(),
            dst@ == old(dst)@ + src@.take(i as int),
        decreases src.len() - i,
    {
        dst.push(src[i]);
        i = i + 1;
        assert(dst@ =~= old(dst)@ + src@.take(i as int));
    }
    assert(src@.take(i as int) =~= src@);
}

/// The status code of a backend's response: the second word of its first
/// line, or an empty string.
pub fn status_code(response: &str) -> (code: String)
    ensures
        code@ == status_code_of(response@),
{
    let text = chars_of(response);
    let ls = split_lines(&text);
    if ls.len() == 0 {
        return String::new();
    }
    let w = split_words(&ls[0]);
    if w.len() > 1 {
        proof {
            assert(views_of(w@)[1] == w@[1]@);
        }
        string_from_chars(w[1].as_slice())
    } else {
        String::new()
    }
}

/// Rewrites a backend's response for the client, adding the latency header
/// after the response's headers; a response with no lines is invalid.
pub fn rewrite_response(response: &str, latency_ms: &str) -> (r: Result<String, GatewayError>)
    ensures
        match rewritten(response@, latency_ms@) {
            Some(t) => r matches Ok(s) && s@ == t,
            None => r == Err::<String, GatewayError>(GatewayError::InvalidResponse),
        },
{
    let text = chars_of(response);
    let ls = split_lines(&text);
    if ls.len() == 0 {
        return Err(GatewayError::InvalidResponse);
    }
    let ghost all = views_of(ls@);
    let ghost rest = all.drop_first();
    let ghost k = first_blank(rest);
    proof {
        lemma_first_blank(rest);
    }
    let header = chars_of(latency_ms);
    let mut latency_line = chars_of("X-Balancer-Latency: ");
    append_chars(&mut latency_line, &header);
    let ms = chars_of("ms\r\n");
    append_chars(&mut latency_line, &ms);
    assert(latency_line@ == latency_header(latency_ms@));
    let mut headers: Vec<char> = Vec::new();
    let mut body: Vec<char> = Vec::new();
    let mut in_body = false;
    let mut i: usize = 1;
    assert(rest.take(0) =~= Seq::<Seq<char>>::empty());
    while i < ls.len()
        invariant
            1 <= i <= ls.len(),
            all == views_of(ls@),
            rest == all.drop_first(),
            k == first_blank(rest),
            0 <= k <= rest.len(),
            forall|j: int| 0 <= j < k ==> (#[trigger] rest[j]).len() > 0,
            k < rest.len() ==> rest[k].len() == 0,
            latency_line@ == latency_header(latency_ms@),
            !in_body ==> k >= i - 1 && headers@ == block(rest.take(i - 1)) && body@
                == Seq::<char>::empty(),
            in_body ==> k < i - 1 && headers@ == block(rest.take(k)) + latency_header(
                latency_ms@,
            ) && body@ == block(rest.subrange(k + 1, i - 1)),
        decreases ls.len() - i,
    {
        let line = &ls[i];
        let ghost j = i - 1;
        assert(rest[j] == line@);
        if in_body {
            proof {
                let sub = rest.subrange(k + 1, j + 1);
                assert(sub.drop_last() =~= rest.subrange(k + 1, j));
                assert(sub.last() == line@);
            }
            append_chars(&mut body, line);
            body.push('\n');
            assert(body@ =~= block(rest.subrange(k + 1, j + 1)));
        } else if line.len() == 0 {
            in_body = true;
            append_chars(&mut headers, &latency_line);
            proof {
                assert(k == j);
                assert(rest.subrange(k + 1, j + 1) =~= Seq::<Seq<char>>::empty());
            }
        }
        if !in_body {
            proof {
                lemma_block_push(rest, j);
            }
            append_chars(&mut headers, line);
            headers.push('\n');
            assert(headers@ =~= block(rest.take(j + 1)));
        }
        i = i + 1;
    }
    let mut full: Vec<char> = Vec::new();
    append_chars(&mut full, &ls[0]);
    let crlf = chars_of("\r\n");
    append_chars(&mut full, &crlf);
    append_chars(&mut full, &headers);
    append_chars(&mut full, &crlf);
    append_chars(&mut full, &body);
    proof {
        assert(all[0] == ls@[0]@);
        if !in_body {
            assert(rest.take(rest.len() as int) =~= rest);
        } else {
            assert(rest.subrange(k + 1, rest.len() as int) =~= rest.skip(k + 1));
        }
    }
    Ok(string_from_chars(full.as_slice()))
}

/// The reply of the metrics endpoint: an HTTP 200 response with the given
/// content type and, as its body, the metrics text.
pub open spec fn metrics_reply(content_type: Seq<char>, body: Seq<char>) -> Seq<char> {
    "HTTP/1.1 200 OK\r\nContent-Type: "@ + content_type + "\r\nContent-Length: "@ + decimal(
        vstd::utf8::encode_utf8(body).len(),
    ) + "\r\n\r\n"@ + body
}

/// Builds the reply of the metrics endpoint; its Content-Length counts the
/// body's bytes.
pub fn metrics_response(content_type: &str, body: &str) -> (r: String)
    ensures
        r@ == metrics_reply(content_type@, body@),
{
    let mut out = chars_of("HTTP/1.1 200 OK\r\nContent-Type: ");
    let ct = chars_of(content_type);
    append_chars(&mut out, &ct);
    let cl = chars_of("\r\nContent-Length: ");
    append_chars(&mut out, &cl);
    let n = body.as_bytes().len();
    push_decimal(n as u64, &mut out);
    let sep = chars_of("\r\n\r\n");
    append_chars(&mut out, &sep);
    let b = chars_of(body);
    append_chars(&mut out, &b);
    assert(n == vstd::utf8::encode_utf8(body@).len());
    assert(out@ =~= metrics_reply(content_type@, body@));
    string_from_chars(out.as_slice())
}

/// A text that is not empty has a first line, so a backend's response that
/// is not empty is always rewritten, never refused as invalid.
pub proof fn law_nonempty_response_is_rewritten(response: Seq<char>, latency_ms: Seq<char>)
    requires
        response.len() > 0,
    ensures
        lines(response).len() > 0,
        rewritten(response, latency_ms) is Some,
{
    response.index_of_first_ensures('\n');
}


/// The text of `ls` with a line feed after each line, built from the front.
pub proof fn law_block_from_front(first: Seq<char>, rest: Seq<Seq<char>>)
    ensures
        block(seq![first] + rest) == first.push('\n') + block(rest),
        block(Seq::<Seq<char>>::empty()) == Seq::<char>::empty(),
    decreases rest.len(),
{
    let all = seq![first] + rest;
    if rest.len() == 0 {
        assert(all.drop_last() =~= Seq::<Seq<char>>::empty());
        assert(block(all.drop_last()) == Seq::<char>::empty());
        assert(all.last() == first);
        assert(block(all) =~= first.push('\n'));
        assert(block(rest) == Seq::<char>::empty());
    } else {
        law_block_from_front(first, rest.drop_last());
        assert(all.drop_last() =~= seq![first] + rest.drop_last());
        assert(all.last() == rest.last());
        assert(block(all) =~= first.push('\n') + block(rest));
    }
}

proof fn lemma_first_blank_at(h: Seq<Seq<char>>, rest: Seq<Seq<char>>)
    requires
        forall|i: int| 0 <= i < h.len() ==> (#[trigger] h[i]).len() > 0,
    ensures
        first_blank(h + rest) == h.len() + first_blank(rest),
    decreases h.len(),
{
    if h.len() > 0 {
        let all = h + rest;
        assert(all[0] == h[0]);
        assert(all.drop_first() =~= h.drop_first() + rest);
        assert forall|i: int| 0 <= i < h.drop_first().len() implies (#[trigger] h.drop_first()[i]).len()
            > 0 by {
            assert(h.drop_first()[i] == h[i + 1]);
        }
        lemma_first_blank_at(h.drop_first(), rest);
    } else {
        assert(h + rest =~= rest);
    }
}

/// Where the lines of a response are a status line, header lines that are
/// not empty, an empty line and then body lines, the rewritten response is
/// the status line and CR LF, each header line with LF, the latency header,
/// CR LF, and each body line with LF; this holds whether or not there are
/// body lines.
pub proof fn law_latency_header_ends_headers(
    response: Seq<char>,
    latency_ms: Seq<char>,
    status: Seq<char>,
    headers: Seq<Seq<char>>,
    body: Seq<Seq<char>>,
)
    requires
        lines(response) == seq![status] + headers + seq![Seq::<char>::empty()] + body,
        forall|i: int| 0 <= i < headers.len() ==> (#[trigger] headers[i]).len() > 0,
    ensures
        rewritten(response, latency_ms) == Some(
            status + "\r\n"@ + block(headers) + ("X-Balancer-Latency: "@ + latency_ms
                + "ms\r\n"@) + "\r\n"@ + block(body),
        ),
{
    let ls = lines(response);
    let rest = ls.drop_first();
    let tail = seq![Seq::<char>::empty()] + body;
    assert(rest =~= headers + tail);
    assert(tail[0].len() == 0);
    lemma_first_blank_at(headers, tail);
    assert(first_blank(tail) == 0);
    let k = first_blank(rest);
    assert(k == headers.len());
    assert(rest.take(k) =~= headers);
    assert(rest.skip(k + 1) =~= body);
    assert(ls[0] == status);
}

/// Where the lines of a response are a status line and header lines none of
/// which is empty, the rewritten response is the status line and CR LF, each
/// header line with LF, and CR LF, with no latency header.
pub proof fn law_no_blank_line_no_latency_header(
    response: Seq<char>,
    latency_ms: Seq<char>,
    status: Seq<char>,
    headers: Seq<Seq<char>>,
)
    requires
        lines(response) == seq![status] + headers,
        forall|i: int| 0 <= i < headers.len() ==> (#[trigger] headers[i]).len() > 0,
    ensures
        rewritten(response, latency_ms) == Some(status + "\r\n"@ + block(headers) + "\r\n"@),
{
    let ls = lines(response);
    let rest = ls.drop_first();
    assert(rest =~= headers + Seq::<Seq<char>>::empty());
    lemma_first_blank_at(headers, Seq::<Seq<char>>::empty());
    assert(rest.take(rest.len() as int) =~= headers);
    assert(ls[0] == status);
}

/// The Content-Length field of the metrics reply, read back as a number,
/// is the number of bytes of the body, for every body: the reply is the
/// fixed head, the content type, the field, a blank line and the body.
pub proof fn law_metrics_length_matches_body(content_type: Seq<char>, body: Seq<char>)
    requires
        vstd::utf8::encode_utf8(body).len() <= u64::MAX,
    ensures
        exists|field: Seq<char>|
            #![trigger parse_u64_spec(field)]
            metrics_reply(content_type, body) == "HTTP/1.1 200 OK\r\nContent-Type: "@ + content_type
                + "\r\nContent-Length: "@ + field + "\r\n\r\n"@ + body && parse_u64_spec(field)
                == Some(vstd::utf8::encode_utf8(body).len() as u64),
{
    let n = vstd::utf8::encode_utf8(body).len() as u64;
    law_parse_reads_decimal(n);
    let field = decimal(n as nat);
    assert(parse_u64_spec(field) == Some(n));
}

} // verus!
