//! Re-framing of the orchestrator's server-sent-event stream: each upstream
//! chunk is cut into lines, the `data: ` payloads are kept (the `[DONE]`
//! sentinel aside) and joined with newlines into one candidate document.

use crate::json::{json_string_literal, quote_json};
use vstd::prelude::*;
use vstd::string::*;

verus! {

/// The characters of `s`, one by one.
pub fn chars_of(s: &str) -> (r: Vec<char>)
    ensures
        r@ == s@,
{
    let mut cs: Vec<char> = Vec::new();
    for c in it: s.chars()
        invariant
            cs@ == it.seq().take(it.index() as int),
    {
        cs.push(c);
    }
    assert(cs@ =~= s@);
    cs
}

/// A line without the carriage return that ended it, if any.
pub open spec fn strip_cr(line: Seq<char>) -> Seq<char> {
    if line.len() > 0 && line.last() == '\r' {
        line.drop_last()
    } else {
        line
    }
}

/// The lines of `s` from position `i` on, where the current line began at
/// `line_start`. A line ends at a line feed, which is dropped together with a
/// carriage return just before it; a last line without a line feed is kept
/// as it is when it is not empty.
pub open spec fn scan_lines(s: Seq<char>, i: int, line_start: int) -> Seq<Seq<char>>
    decreases s.len() - i,
{
    if i >= s.len() {
        if line_start < s.len() {
            seq![s.subrange(line_start, s.len() as int)]
        } else {
            seq![]
        }
    } else if s[i] == '\n' {
        seq![strip_cr(s.subrange(line_start, i))] + scan_lines(s, i + 1, i + 1)
    } else {
        scan_lines(s, i + 1, line_start)
    }
}

/// The lines of `s`.
pub open spec fn lines_of(s: Seq<char>) -> Seq<Seq<char>> {
    scan_lines(s, 0, 0)
}

/// The prefix of a data line.
pub open spec fn data_prefix() -> Seq<char> {
    seq!['d', 'a', 't', 'a', ':', ' ']
}

/// The payload of the end-of-stream sentinel.
pub open spec fn done_marker() -> Seq<char> {
    seq!['[', 'D', 'O', 'N', 'E', ']']
}

/// The payload a line contributes: what follows `data: `, unless that is the
/// sentinel; other lines contribute nothing.
pub open spec fn data_payload(line: Seq<char>) -> Option<Seq<char>> {
    if line.len() >= 6 && line.take(6) == data_prefix() && line.skip(6) != done_marker() {
        Some(line.skip(6))
    } else {
        None
    }
}

/// The payloads of `lines`, in order.
pub open spec fn payloads(lines: Seq<Seq<char>>) -> Seq<Seq<char>>
    decreases lines.len(),
{
    if lines.len() == 0 {
        seq![]
    } else {
        let prev = payloads(lines.drop_last());
        match data_payload(lines.last()) {
            Some(p) => prev.push(p),
            None => prev,
        }
    }
}

/// `parts` joined with line feeds.
pub open spec fn join_lines(parts: Seq<Seq<char>>) -> Seq<char>
    decreases parts.len(),
{
    if parts.len() == 0 {
        seq![]
    } else if parts.len() == 1 {
        parts[0]
    } else {
        join_lines(parts.drop_last()) + seq!['\n'] + parts.last()
    }
}

/// The candidate document of an upstream chunk.
pub open spec fn sse_data(chunk: Seq<char>) -> Seq<char> {
    join_lines(payloads(lines_of(chunk)))
}

/// Whether the characters `cs[from..to]` are `pat`.
fn slice_is(cs: &Vec<char>, from: usize, to: usize, pat: &Vec<char>) -> (r: bool)
    requires
        from <= to <= cs@.len(),
    ensures
        r == (cs@.subrange(from as int, to as int) == pat@),
{
    if to - from != pat.len() {
        return false;
    }
    let mut k: usize = 0;
    while k < pat.len()
        invariant
            0 <= k <= pat@.len(),
            to - from == pat@.len(),
            from <= to <= cs@.len(),
            forall|m: int| 0 <= m < k ==> cs@[from + m] == pat@[m],
        decreases pat@.len() - k,
    {
        if cs[from + k] != pat[k] {
            assert(cs@.subrange(from as int, to as int)[k as int] != pat@[k as int]);
            return false;
        }
        k += 1;
    }
    assert(cs@.subrange(from as int, to as int) =~= pat@);
    true
}

/// The payload of the line `cs[from..to]`, as positions into `cs`.
fn line_payload(cs: &Vec<char>, from: usize, to: usize, prefix: &Vec<char>, done: &Vec<char>) -> (r: Option<usize>)
    requires
        from <= to <= cs@.len(),
        prefix@ == data_prefix(),
        done@ == done_marker(),
    ensures
        match data_payload(cs@.subrange(from as int, to as int)) {
            Some(p) => r == Some((from + 6) as usize) && from + 6 <= to && p == cs@.subrange(
                from + 6,
                to as int,
            ),
            None => r is None,
        },
{
    let line = Ghost(cs@.subrange(from as int, to as int));
    if to - from < 6 {
        return None;
    }
    let start = from + 6;
    assert(line@.take(6) =~= cs@.subrange(from as int, start as int));
    assert(line@.skip(6) =~= cs@.subrange(start as int, to as int));
    if !slice_is(cs, from, start, prefix) {
        return None;
    }
    if slice_is(cs, start, to, done) {
        return None;
    }
    Some(start)
}

proof fn lemma_payloads_push(lines: Seq<Seq<char>>, line: Seq<char>)
    ensures
        payloads(lines.push(line)) == match data_payload(line) {
            Some(p) => payloads(lines).push(p),
            None => payloads(lines),
        },
{
    assert(lines.push(line).drop_last() =~= lines);
}

proof fn lemma_join_push(parts: Seq<Seq<char>>, p: Seq<char>)
    ensures
        join_lines(parts.push(p)) == if parts.len() == 0 {
            p
        } else {
            join_lines(parts) + seq!['\n'] + p
        },
{
    assert(parts.push(p).drop_last() =~= parts);
}

/// Joins the non-sentinel `data: ` payloads of an upstream chunk with line
/// feeds; the result is empty when the chunk has none.
pub fn extract_sse_data(chunk: &str) -> (r: String)
    ensures
        r@ == sse_data(chunk@),
{
    let cs = chars_of(chunk);
    let prefix: Vec<char> = vec!['d', 'a', 't', 'a', ':', ' '];
    let done: Vec<char> = vec!['[', 'D', 'O', 'N', 'E', ']'];
    assert(prefix@ =~= data_prefix());
    assert(done@ =~= done_marker());
    let n = cs.len();
    let mut out = String::new();
    let mut any = false;
    let ghost mut seen: Seq<Seq<char>> = seq![];
    let mut line_start: usize = 0;
    let mut i: usize = 0;
    proof {
        reveal_strlit("\n");
    }
    while i < n
        invariant
            0 <= line_start <= i <= n,
            n == cs@.len(),
            cs@ == chunk@,
            prefix@ == data_prefix(),
            done@ == done_marker(),
            "\n"@ == seq!['\n'],
            lines_of(cs@) == seen + scan_lines(cs@, i as int, line_start as int),
            out@ == join_lines(payloads(seen)),
            any == (payloads(seen).len() > 0),
        decreases n - i,
    {
        if cs[i] == '\n' {
            let line_end = if i > line_start && cs[i - 1] == '\r' {
                i - 1
            } else {
                i
            };
            let ghost line = cs@.subrange(line_start as int, line_end as int);
            assert(line == strip_cr(cs@.subrange(line_start as int, i as int)));
            let ghost before = payloads(seen);
            proof {
                lemma_payloads_push(seen, line);
            }
            match line_payload(&cs, line_start, line_end, &prefix, &done) {
                Some(from) => {
                    proof {
                        lemma_join_push(before, cs@.subrange(from as int, line_end as int));
                    }
                    if any {
                        out.append("\n");
                    }
                    out.append(chunk.substring_char(from, line_end));
                    any = true;
                },
                None => {},
            }
            proof {
                assert(seq![line] + scan_lines(cs@, i + 1, i + 1) == scan_lines(
                    cs@,
                    i as int,
                    line_start as int,
                ));
                assert(seen + scan_lines(cs@, i as int, line_start as int) =~= seen.push(line)
                    + scan_lines(cs@, i + 1, i + 1));
                seen = seen.push(line);
            }
            line_start = i + 1;
        }
        i += 1;
    }
    if line_start < n {
        let ghost line = cs@.subrange(line_start as int, n as int);
        let ghost before = payloads(seen);
        proof {
            lemma_payloads_push(seen, line);
        }
        match line_payload(&cs, line_start, n, &prefix, &done) {
            Some(from) => {
                proof {
                    lemma_join_push(before, cs@.subrange(from as int, n as int));
                }
                if any {
                    out.append("\n");
                }
                out.append(chunk.substring_char(from, n));
            },
            None => {},
        }
        proof {
            assert(seen + scan_lines(cs@, n as int, line_start as int) =~= seen.push(line));
        }
    } else {
        assert(seen + scan_lines(cs@, n as int, line_start as int) =~= seen);
    }
    out
}

/// The data of an error event around an already quoted JSON string.
pub open spec fn error_event_spec(quoted: Seq<char>) -> Seq<char> {
    "{\"error\": "@ + quoted + "}"@
}

/// The data of an error event, `{"error": <quoted>}`, from the JSON string
/// literal `quoted`.
pub fn error_event(quoted: &str) -> (r: String)
    ensures
        r@ == error_event_spec(quoted@),
{
    let mut s = String::from_str("{\"error\": ");
    s.append(quoted);
    s.append("}");
    s
}

/// The data of the error event that ends a stream whose upstream read failed
/// with `message`: the message as a JSON string under `error`.
pub fn stream_error_event(message: &str) -> (r: String)
    ensures
        r@ == error_event_spec(json_string_literal(message@)),
{
    match quote_json(message) {
        Some(quoted) => error_event(quoted.as_str()),
        None => String::new(),
    }
}

/// What the relay does with one upstream chunk.
#[derive(Debug)]
pub enum RelayAction {
    /// Nothing is sent: the chunk holds no data.
    Skip,
    /// The chunk's candidate document is sent on, after the fallback policy
    /// where it parses as a streamed reply, as it is otherwise.
    Forward(String),
    /// This error event is sent and the stream ends.
    Fail(String),
}

/// Whether `action` is what the relay does with `chunk`: a chunk without
/// data is skipped, one with data has its candidate document forwarded, and a
/// failed read becomes an error event carrying its message.
pub open spec fn relay_outcome(chunk: Result<String, String>, action: RelayAction) -> bool {
    match chunk {
        Ok(text) => if sse_data(text@).len() == 0 {
            action is Skip
        } else {
            action matches RelayAction::Forward(d) && d@ == sse_data(text@)
        },
        Err(message) => action matches RelayAction::Fail(e) && e@ == error_event_spec(
            json_string_literal(message@),
        ),
    }
}

/// Decides what to send for one upstream chunk: its text, or the message of
/// the read that failed.
pub fn relay_chunk(chunk: Result<String, String>) -> (r: RelayAction)
    ensures
        relay_outcome(chunk, r),
{
    match chunk {
        Ok(text) => {
            let data = extract_sse_data(text.as_str());
            if data.as_str().is_empty() {
                RelayAction::Skip
            } else {
                RelayAction::Forward(data)
            }
        },
        Err(message) => RelayAction::Fail(stream_error_event(message.as_str())),
    }
}

/// The relay of one upstream stream. Chunks are handled in the order they
/// come; after a failed read the stream is over.
#[derive(Debug)]
pub struct Relay {
    pub closed: bool,
}

impl Relay {
    /// A relay whose stream is open.
    pub fn new() -> (r: Self)
        ensures
            !r.closed,
    {
        Relay { closed: false }
    }

    /// The action for the next upstream chunk, or `None` once the stream is
    /// over. A failed read is reported once and closes the stream.
    pub fn next(&mut self, chunk: Result<String, String>) -> (r: Option<RelayAction>)
        ensures
            old(self).closed ==> r is None && final(self).closed,
            !old(self).closed ==> (r matches Some(a) && relay_outcome(chunk, a)) && final(self).closed
                == chunk is Err,
    {
        if self.closed {
            return None;
        }
        self.closed = chunk.is_err();
        Some(relay_chunk(chunk))
    }
}

} // verus!
