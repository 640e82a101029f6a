//! The listener that hands out the metrics.

use crate::text::{
    byte_len, decimal, law_lines_end_with_a_line_feed, lines, number, same, split_lines, starts_with,
    texts,
};
use vstd::prelude::*;
use vstd::utf8::encode_utf8;

verus! {

/// Whether the first line of a request asks for the metrics.
pub open spec fn asks_for_metrics(line: Seq<char>) -> bool {
    "GET /metrics "@.is_prefix_of(line) || line == "GET /metrics"@
}

/// The answer to a request whose first line is `line`, where `metrics` is what there
/// is to hand out. Lengths are counted in bytes.
pub open spec fn metrics_answer(line: Seq<char>, metrics: Seq<char>) -> Seq<char> {
    if asks_for_metrics(line) {
        "HTTP/1.1 200 OK\r\nContent-Type: text/plain; version=0.0.4\r\nContent-Length: "@ + decimal(
            encode_utf8(metrics).len(),
        ) + "\r\nConnection: close\r\n\r\n"@ + metrics
    } else {
        "HTTP/1.1 404 Not Found\r\nContent-Type: text/plain; charset=utf-8\r\nContent-Length: 9\r\nConnection: close\r\n\r\nNot Found"@
    }
}

/// The answer to a request whose first line is `first_line`.
pub fn build_response(first_line: &str, metrics: &str) -> (r: String)
    ensures
        r@ == metrics_answer(first_line@, metrics@),
{
    if starts_with(first_line, "GET /metrics ") || same(first_line, "GET /metrics") {
        let mut out =
            "HTTP/1.1 200 OK\r\nContent-Type: text/plain; version=0.0.4\r\nContent-Length: ".to_owned();
        out.push_str(number(byte_len(metrics) as u64).as_str());
        out.push_str("\r\nConnection: close\r\n\r\n");
        out.push_str(metrics);
        out
    } else {
        "HTTP/1.1 404 Not Found\r\nContent-Type: text/plain; charset=utf-8\r\nContent-Length: 9\r\nConnection: close\r\n\r\nNot Found".to_owned()
    }
}

/// The first line of a request; empty where there is none.
pub open spec fn first_line_of(request: Seq<char>) -> Seq<char> {
    if lines(request).len() > 0 {
        lines(request)[0]
    } else {
        seq![]
    }
}

/// The answer to a request.
pub fn answer_request(request: &str, metrics: &str) -> (r: String)
    ensures
        r@ == metrics_answer(first_line_of(request@), metrics@),
{
    let parts = split_lines(request);
    assert(texts(parts@).len() == parts@.len());
    if parts.len() > 0 {
        assert(parts@[0]@ == texts(parts@)[0]);
        build_response(parts[0].as_str(), metrics)
    } else {
        let empty = String::new();
        build_response(empty.as_str(), metrics)
    }
}

/// A request for the metrics gets them, as they are, at the end of an answer that says how
/// many bytes they are.
pub proof fn law_metrics_are_handed_out(rest: Seq<char>, metrics: Seq<char>)
    ensures
        metrics_answer("GET /metrics"@, metrics) == metrics_answer("GET /metrics "@ + rest, metrics),
        metrics.is_suffix_of(metrics_answer("GET /metrics"@, metrics)),
        "HTTP/1.1 200 OK\r\n"@.is_prefix_of(metrics_answer("GET /metrics"@, metrics)),
        ("\r\nContent-Length: "@ + decimal(encode_utf8(metrics).len())
            + "\r\nConnection: close\r\n\r\n"@ + metrics).is_suffix_of(
            metrics_answer("GET /metrics"@, metrics),
        ),
{
    reveal_strlit("GET /metrics ");
    reveal_strlit("HTTP/1.1 200 OK\r\n");
    reveal_strlit("\r\nContent-Length: ");
    reveal_strlit(
        "HTTP/1.1 200 OK\r\nContent-Type: text/plain; version=0.0.4\r\nContent-Length: ",
    );
    let a = metrics_answer("GET /metrics"@, metrics);
    let asked = "GET /metrics "@ + rest;
    assert(asked.subrange(0, 13) =~= "GET /metrics "@);
    assert(a.subrange(a.len() - metrics.len(), a.len() as int) =~= metrics);
    assert(a.subrange(0, 17) =~= "HTTP/1.1 200 OK\r\n"@);
    let t = "\r\nContent-Length: "@ + decimal(encode_utf8(metrics).len())
        + "\r\nConnection: close\r\n\r\n"@ + metrics;
    assert(a.subrange(a.len() - t.len(), a.len() as int) =~= t);
}

/// Any other request is answered with status 404, and learns nothing of the metrics.
pub proof fn law_other_requests_learn_nothing(line: Seq<char>, metrics: Seq<char>, others: Seq<char>)
    requires
        line != "GET /metrics"@,
        !"GET /metrics "@.is_prefix_of(line),
    ensures
        metrics_answer(line, metrics) == metrics_answer(line, others),
        "HTTP/1.1 404 Not Found\r\n"@.is_prefix_of(metrics_answer(line, metrics)),
{
    reveal_strlit("HTTP/1.1 404 Not Found\r\n");
    reveal_strlit(
        "HTTP/1.1 404 Not Found\r\nContent-Type: text/plain; charset=utf-8\r\nContent-Length: 9\r\nConnection: close\r\n\r\nNot Found",
    );
    let a = metrics_answer(line, metrics);
    assert(a.subrange(0, 24) =~= "HTTP/1.1 404 Not Found\r\n"@);
}

/// The first line of a request is what stands before its first line feed; a request without
/// anything has an empty one.
pub proof fn law_first_line_is_read(line: Seq<char>, rest: Seq<char>)
    requires
        !line.contains('\n'),
    ensures
        first_line_of(line.push('\r') + seq!['\n'] + rest) == line,
        first_line_of(line) == line,
{
    let with_return = line.push('\r');
    assert forall|i: int| 0 <= i < with_return.len() implies with_return[i] != '\n' by {
        if i < line.len() {
            assert(line.contains(line[i]));
        }
    }
    law_lines_end_with_a_line_feed(with_return, rest);
    law_lines_end_with_a_line_feed(line, rest);
    if line.len() == 0 {
        assert(line =~= Seq::<char>::empty());
    }
}

} // verus!
