//! The reading of a streamed chat-completions answer: the bytes that arrive
//! are cut into events at blank lines, each event into lines, and each
//! `data:` line is a chunk of the answer, or the end mark `[DONE]`.

use vstd::prelude::*;

use crate::json::{parse_json_spec, parse_json_text};
use crate::text::{concat, owned, starts_with, string_of, trim, trim_str};
use crate::translation::{
    build_error, extract_stream_delta, opt_string, stream_delta_spec, translation_error,
    ResolvedTranslationTarget, TranslationErrorInfo, TranslationErrorView, TranslationProvider,
};

verus! {

/// Where the first blank line (two line feeds) at or after `i` starts in `s`.
pub open spec fn blank_from(s: Seq<char>, i: int) -> Option<int>
    decreases s.len() - i,
{
    if i < 0 || i + 1 >= s.len() {
        None
    } else if s[i] == '\n' && s[i + 1] == '\n' {
        Some(i)
    } else {
        blank_from(s, i + 1)
    }
}

/// Where the first line feed at or after `i` is in `s`.
pub open spec fn newline_from(s: Seq<char>, i: int) -> Option<int>
    decreases s.len() - i,
{
    if i < 0 || i >= s.len() {
        None
    } else if s[i] == '\n' {
        Some(i)
    } else {
        newline_from(s, i + 1)
    }
}

/// Where a blank line is found, it is one, at or after the starting position.
pub proof fn lemma_blank_from_bounds(s: Seq<char>, i: int)
    ensures
        blank_from(s, i) matches Some(k) ==> i <= k && k + 1 < s.len() && s[k] == '\n' && s[k + 1] == '\n',
    decreases s.len() - i,
{
    if !(i < 0 || i + 1 >= s.len()) && !(s[i] == '\n' && s[i + 1] == '\n') {
        lemma_blank_from_bounds(s, i + 1);
    }
}

/// Where a line feed is found, it is one, at or after the starting position.
pub proof fn lemma_newline_from_bounds(s: Seq<char>, i: int)
    ensures
        newline_from(s, i) matches Some(k) ==> i <= k && k < s.len() && s[k] == '\n',
    decreases s.len() - i,
{
    if !(i < 0 || i >= s.len()) && s[i] != '\n' {
        lemma_newline_from_bounds(s, i + 1);
    }
}

/// A line without the carriage return that ended it.
pub open spec fn strip_cr(l: Seq<char>) -> Seq<char> {
    if l.len() > 0 && l.last() == '\r' {
        l.drop_last()
    } else {
        l
    }
}

/// The lines of `s` from position `p` on, as `str::lines` gives them: cut at
/// line feeds, a line ended by a line feed loses a carriage return before
/// it, and no empty line follows a final line feed.
pub open spec fn lines_from(s: Seq<char>, p: int) -> Seq<Seq<char>>
    decreases s.len() - p,
{
    if p < 0 || p >= s.len() {
        Seq::empty()
    } else {
        match newline_from(s, p) {
            Some(k) => {
                proof {
                    lemma_newline_from_bounds(s, p);
                }
                seq![strip_cr(s.subrange(p, k))] + lines_from(s, k + 1)
            },
            None => seq![s.subrange(p, s.len() as int)],
        }
    }
}

/// The lines of `s`.
pub open spec fn lines_of(s: Seq<char>) -> Seq<Seq<char>> {
    lines_from(s, 0)
}

/// `s` without every leading `data:`, as `str::trim_start_matches("data:")` gives it.
pub open spec fn strip_data_prefixes(s: Seq<char>) -> Seq<char>
    decreases s.len(),
{
    if s.len() >= 5 && s[0] == 'd' && s[1] == 'a' && s[2] == 't' && s[3] == 'a' && s[4] == ':' {
        strip_data_prefixes(s.subrange(5, s.len() as int))
    } else {
        s
    }
}

/// The data of a line: a trimmed line that starts with `data:` carries what
/// follows its `data:` prefixes, trimmed, when that is not empty.
pub open spec fn line_data(line: Seq<char>) -> Option<Seq<char>> {
    let t = trim(line);
    if !starts_with(t, "data:"@) {
        None
    } else {
        let d = trim(strip_data_prefixes(t));
        if d.len() == 0 {
            None
        } else {
            Some(d)
        }
    }
}

/// The data items of a sequence of lines, in order.
pub open spec fn data_items(lines: Seq<Seq<char>>) -> Seq<Seq<char>>
    decreases lines.len(),
{
    if lines.len() == 0 {
        Seq::empty()
    } else {
        (match line_data(lines[0]) {
            Some(d) => seq![d],
            None => Seq::empty(),
        }) + data_items(lines.drop_first())
    }
}

/// The data items of the complete events of `buf` from position `p` on; an
/// event is complete once a blank line follows it.
pub open spec fn buffer_items(buf: Seq<char>, p: int) -> Seq<Seq<char>>
    decreases buf.len() - p,
{
    match blank_from(buf, p) {
        Some(k) => {
            proof {
                lemma_blank_from_bounds(buf, p);
            }
            data_items(lines_of(buf.subrange(p, k))) + buffer_items(buf, k + 2)
        },
        None => Seq::empty(),
    }
}

/// What stays of `buf` from position `p` on once its complete events are taken.
pub open spec fn buffer_rest(buf: Seq<char>, p: int) -> Seq<char>
    decreases buf.len() - p,
{
    match blank_from(buf, p) {
        Some(k) => {
            proof {
                lemma_blank_from_bounds(buf, p);
            }
            buffer_rest(buf, k + 2)
        },
        None => if 0 <= p <= buf.len() {
            buf.subrange(p, buf.len() as int)
        } else {
            Seq::empty()
        },
    }
}

fn find_blank_from(v: &Vec<char>, p: usize) -> (r: Option<usize>)
    requires
        p <= v@.len(),
    ensures
        match r {
            Some(k) => blank_from(v@, p as int) == Some(k as int),
            None => blank_from(v@, p as int) is None,
        },
{
    let n = v.len();
    let mut i = p;
    while n - i >= 2
        invariant
            n == v@.len(),
            p <= i <= n,
            blank_from(v@, p as int) == blank_from(v@, i as int),
        decreases n - i,
    {
        if v[i] == '\n' && v[i + 1] == '\n' {
            return Some(i);
        }
        i = i + 1;
    }
    None
}

fn find_newline_from(v: &Vec<char>, p: usize) -> (r: Option<usize>)
    requires
        p <= v@.len(),
    ensures
        match r {
            Some(k) => newline_from(v@, p as int) == Some(k as int),
            None => newline_from(v@, p as int) is None,
        },
{
    let n = v.len();
    let mut i = p;
    while i < n
        invariant
            n == v@.len(),
            p <= i <= n,
            newline_from(v@, p as int) == newline_from(v@, i as int),
        decreases n - i,
    {
        if v[i] == '\n' {
            return Some(i);
        }
        i = i + 1;
    }
    None
}

/// The characters of `v` from `a` up to `b`.
fn slice_chars(v: &Vec<char>, a: usize, b: usize) -> (r: Vec<char>)
    requires
        a <= b <= v@.len(),
    ensures
        r@ == v@.subrange(a as int, b as int),
{
    let mut r: Vec<char> = Vec::new();
    let mut i = a;
    while i < b
        invariant
            a <= i <= b,
            b <= v@.len(),
            r@ == v@.subrange(a as int, i as int),
        decreases b - i,
    {
        r.push(v[i]);
        assert(v@.subrange(a as int, i + 1) =~= v@.subrange(a as int, i as int).push(v@[i as int]));
        i = i + 1;
    }
    r
}

fn strip_cr_exec(v: Vec<char>) -> (r: Vec<char>)
    ensures
        r@ == strip_cr(v@),
{
    let ghost orig = v@;
    let mut w = v;
    let n = w.len();
    if n > 0 && w[n - 1] == '\r' {
        w.pop();
        assert(w@ =~= orig.drop_last());
    }
    w
}

fn line_data_exec(line: &Vec<char>) -> (r: Option<String>)
    ensures
        opt_string(r) == line_data(line@),
{
    let s = string_of(line.as_slice());
    let t = trim_str(s.as_str());
    let tv = crate::text::chars_of(t.as_str());
    let n = tv.len();
    proof {
        reveal_strlit("data:");
        assert("data:"@ =~= seq!['d', 'a', 't', 'a', ':']);
    }
    if !(n >= 5 && tv[0] == 'd' && tv[1] == 'a' && tv[2] == 't' && tv[3] == 'a' && tv[4] == ':') {
        proof {
            if starts_with(tv@, "data:"@) {
                assert(tv@.subrange(0, 5)[0] == tv@[0]);
                assert(tv@.subrange(0, 5)[1] == tv@[1]);
                assert(tv@.subrange(0, 5)[2] == tv@[2]);
                assert(tv@.subrange(0, 5)[3] == tv@[3]);
                assert(tv@.subrange(0, 5)[4] == tv@[4]);
            }
        }
        return None;
    }
    assert(tv@.subrange(0, 5) =~= "data:"@);
    let mut q: usize = 0;
    assert(tv@.subrange(0, n as int) =~= tv@);
    while n - q >= 5 && tv[q] == 'd' && tv[q + 1] == 'a' && tv[q + 2] == 't' && tv[q + 3] == 'a' && tv[q + 4] == ':'
        invariant
            n == tv@.len(),
            0 <= q <= n,
            strip_data_prefixes(tv@) == strip_data_prefixes(tv@.subrange(q as int, n as int)),
        decreases n - q,
    {
        let ghost sub = tv@.subrange(q as int, n as int);
        assert(sub[0] == tv@[q as int] && sub[1] == tv@[q + 1] && sub[2] == tv@[q + 2]);
        assert(sub[3] == tv@[q + 3] && sub[4] == tv@[q + 4]);
        assert(sub.subrange(5, sub.len() as int) =~= tv@.subrange(q + 5, n as int));
        q = q + 5;
    }
    proof {
        let sub = tv@.subrange(q as int, n as int);
        if sub.len() >= 5 {
            assert(sub[0] == tv@[q as int] && sub[1] == tv@[q + 1] && sub[2] == tv@[q + 2]);
            assert(sub[3] == tv@[q + 3] && sub[4] == tv@[q + 4]);
        }
    }
    let rest = slice_chars(&tv, q, n);
    let rs = string_of(rest.as_slice());
    let d = trim_str(rs.as_str());
    if d.as_str().is_empty() {
        None
    } else {
        Some(d)
    }
}

/// The bytes of a chunk as text, from `String::from_utf8_lossy`: what is not
/// valid UTF-8 becomes replacement characters.
pub uninterp spec fn utf8_lossy_spec(bytes: Seq<u8>) -> Seq<char>;

/// Reads `bytes` as text with `String::from_utf8_lossy`. The contract claims
/// that the text is `utf8_lossy_spec` of the bytes.
#[verifier::external_body]
fn utf8_lossy(bytes: &[u8]) -> (r: String)
    ensures
        r@ == utf8_lossy_spec(bytes@),
{
    String::from_utf8_lossy(bytes).to_string()
}

/// What reading a run of data items gives: the deltas announced (each with
/// the answer so far), the answer so far, whether a delta came, and how the
/// answer ended, if it did.
pub struct StreamRun {
    pub deltas: Seq<(Seq<char>, Seq<char>)>,
    pub accumulated: Seq<char>,
    pub saw_delta: bool,
    pub end: Option<Result<Seq<char>, TranslationErrorView>>,
}

/// The error of an answer that ended with `[DONE]` before any text.
pub open spec fn no_text_error(provider: TranslationProvider, url: Seq<char>, model: Seq<char>) -> TranslationErrorView {
    translation_error("response_parse"@, "The translation stream finished without any text."@, provider, url, model)
}

/// The error of a data item that is not JSON; `e` is the parse error's text.
pub open spec fn chunk_parse_error(e: Seq<char>, provider: TranslationProvider, url: Seq<char>, model: Seq<char>) -> TranslationErrorView {
    translation_error("response_parse"@, "Failed to parse translation stream chunk: "@ + e, provider, url, model)
}

/// The error of an answer whose stream ended before any text.
pub open spec fn stream_ended_error(provider: TranslationProvider, url: Seq<char>, model: Seq<char>) -> TranslationErrorView {
    translation_error("response_parse"@, "The translation stream ended before any text was received."@, provider, url, model)
}

/// Reads the data items `items` with the answer so far `acc`: `[DONE]` ends
/// the answer (an error when it is still empty), an item that is not JSON
/// ends it with an error, and a non-empty delta is added to the answer and
/// announced.
pub open spec fn run_items(items: Seq<Seq<char>>, acc: Seq<char>, saw: bool, provider: TranslationProvider, url: Seq<char>, model: Seq<char>) -> StreamRun
    decreases items.len(),
{
    if items.len() == 0 {
        StreamRun { deltas: Seq::empty(), accumulated: acc, saw_delta: saw, end: None }
    } else if items[0] == "[DONE]"@ {
        StreamRun {
            deltas: Seq::empty(),
            accumulated: acc,
            saw_delta: saw,
            end: Some(
                if acc.len() == 0 {
                    Err(no_text_error(provider, url, model))
                } else {
                    Ok(acc)
                },
            ),
        }
    } else {
        match parse_json_spec(items[0]) {
            Err(e) => StreamRun { deltas: Seq::empty(), accumulated: acc, saw_delta: saw, end: Some(Err(chunk_parse_error(e, provider, url, model))) },
            Ok(v) => match stream_delta_spec(v) {
                Some(x) => if x.len() > 0 {
                    let rest = run_items(items.drop_first(), acc + x, true, provider, url, model);
                    StreamRun { deltas: seq![(x, acc + x)] + rest.deltas, ..rest }
                } else {
                    run_items(items.drop_first(), acc, saw, provider, url, model)
                },
                None => run_items(items.drop_first(), acc, saw, provider, url, model),
            },
        }
    }
}

/// A streamed answer being read: the text not yet cut into events, the
/// answer so far, and whether a delta came.
pub struct TranslationStream {
    buffer: String,
    accumulated: String,
    saw_delta: bool,
}

/// What one chunk of a streamed answer gives: the deltas to announce, each
/// with the answer so far, and the outcome when the answer ended.
#[derive(Debug)]
pub struct StreamProgress {
    pub deltas: Vec<(String, String)>,
    pub end: Option<Result<String, TranslationErrorInfo>>,
}

/// The views of announced deltas.
pub open spec fn deltas_view(d: Seq<(String, String)>) -> Seq<(Seq<char>, Seq<char>)> {
    d.map_values(|p: (String, String)| (p.0@, p.1@))
}

/// The view of an optional outcome.
pub open spec fn end_view(e: Option<Result<String, TranslationErrorInfo>>) -> Option<Result<Seq<char>, TranslationErrorView>> {
    match e {
        Some(Ok(t)) => Some(Ok(t@)),
        Some(Err(x)) => Some(Err(x@)),
        None => None,
    }
}

proof fn lemma_data_items_cons(x: Seq<char>, rest: Seq<Seq<char>>)
    ensures
        data_items(seq![x] + rest) == (match line_data(x) {
            Some(d) => seq![d],
            None => Seq::<Seq<char>>::empty(),
        }) + data_items(rest),
{
    assert((seq![x] + rest)[0] == x);
    assert((seq![x] + rest).drop_first() =~= rest);
}

impl TranslationStream {
    /// The text not yet cut into events.
    pub closed spec fn buffer(&self) -> Seq<char> {
        self.buffer@
    }

    /// The answer so far.
    pub closed spec fn accumulated(&self) -> Seq<char> {
        self.accumulated@
    }

    /// Whether a delta came.
    pub closed spec fn saw_delta(&self) -> bool {
        self.saw_delta
    }

    /// A stream from which nothing was read yet.
    pub fn new() -> (r: TranslationStream)
        ensures
            r.buffer() == Seq::<char>::empty(),
            r.accumulated() == Seq::<char>::empty(),
            !r.saw_delta(),
    {
        TranslationStream { buffer: String::new(), accumulated: String::new(), saw_delta: false }
    }

    /// Reads one chunk of the answer to a request of `target`: the chunk is
    /// added to the text held, every complete event is read, and what
    /// follows the last blank line is held for the next chunk. The answer
    /// ends at `[DONE]` or at a data item that is not JSON.
    pub fn push_chunk(&mut self, chunk: &[u8], target: &ResolvedTranslationTarget, model: &str) -> (r: StreamProgress)
        ensures
            ({
                let buf = old(self).buffer() + utf8_lossy_spec(chunk@);
                let run = run_items(
                    buffer_items(buf, 0),
                    old(self).accumulated(),
                    old(self).saw_delta(),
                    target.provider,
                    target.resolved_url@,
                    model@,
                );
                &&& deltas_view(r.deltas@) == run.deltas
                &&& end_view(r.end) == run.end
                &&& run.end is None ==> final(self).buffer() == buffer_rest(buf, 0) && final(self).accumulated()
                    == run.accumulated && final(self).saw_delta() == run.saw_delta
            }),
    {
        let ghost provider = target.provider;
        let ghost url = target.resolved_url@;
        let text = utf8_lossy(chunk);
        let joined = concat(self.buffer.as_str(), text.as_str());
        let buf = crate::text::chars_of(joined.as_str());
        let n = buf.len();
        let ghost goal = run_items(buffer_items(buf@, 0), self.accumulated@, self.saw_delta, provider, url, model@);
        let mut acc = owned(self.accumulated.as_str());
        let mut saw = self.saw_delta;
        let mut deltas: Vec<(String, String)> = Vec::new();
        let mut p: usize = 0;
        proof {
            assert(deltas_view(deltas@) =~= Seq::<(Seq<char>, Seq<char>)>::empty());
            assert(goal.deltas =~= deltas_view(deltas@) + goal.deltas);
        }
        loop
            invariant
                n == buf@.len(),
                0 <= p <= n,
                buf@ == old(self).buffer() + utf8_lossy_spec(chunk@),
                goal == run_items(buffer_items(buf@, 0), old(self).accumulated(), old(self).saw_delta(), provider, url, model@),
                provider == target.provider,
                url == target.resolved_url@,
                ({
                    let cur = run_items(buffer_items(buf@, p as int), acc@, saw, provider, url, model@);
                    &&& goal.deltas == deltas_view(deltas@) + cur.deltas
                    &&& goal.end == cur.end
                    &&& goal.accumulated == cur.accumulated
                    &&& goal.saw_delta == cur.saw_delta
                }),
                buffer_rest(buf@, 0) == buffer_rest(buf@, p as int),
            ensures
                0 <= p <= n,
                blank_from(buf@, p as int) is None,
                ({
                    let cur = run_items(buffer_items(buf@, p as int), acc@, saw, provider, url, model@);
                    &&& goal.deltas == deltas_view(deltas@) + cur.deltas
                    &&& goal.end == cur.end
                    &&& goal.accumulated == cur.accumulated
                    &&& goal.saw_delta == cur.saw_delta
                }),
                buffer_rest(buf@, 0) == buffer_rest(buf@, p as int),
            decreases n - p,
        {
            let k = match find_blank_from(&buf, p) {
                Some(k) => k,
                None => {
                    break;
                },
            };
            proof {
                lemma_blank_from_bounds(buf@, p as int);
            }
            let event = slice_chars(&buf, p, k);
            let en = event.len();
            let ghost after = buffer_items(buf@, k + 2);
            let mut q: usize = 0;
            proof {
                assert(buffer_items(buf@, p as int) == data_items(lines_of(event@)) + after);
            }
            while q < en
                invariant
                    en == event@.len(),
                    0 <= q <= en,
                    k + 2 <= n,
                    n == buf@.len(),
                    buf@ == old(self).buffer() + utf8_lossy_spec(chunk@),
                    goal == run_items(buffer_items(buf@, 0), old(self).accumulated(), old(self).saw_delta(), provider, url, model@),
                    after == buffer_items(buf@, k + 2),
                    provider == target.provider,
                    url == target.resolved_url@,
                    ({
                        let cur = run_items(data_items(lines_from(event@, q as int)) + after, acc@, saw, provider, url, model@);
                        &&& goal.deltas == deltas_view(deltas@) + cur.deltas
                        &&& goal.end == cur.end
                        &&& goal.accumulated == cur.accumulated
                        &&& goal.saw_delta == cur.saw_delta
                    }),
                decreases en - q,
            {
                let ghost lines_before = lines_from(event@, q as int);
                let (line, next_q) = match find_newline_from(&event, q) {
                    Some(e) => {
                        proof {
                            lemma_newline_from_bounds(event@, q as int);
                        }
                        (strip_cr_exec(slice_chars(&event, q, e)), e + 1)
                    },
                    None => (slice_chars(&event, q, en), en),
                };
                assert(lines_before == seq![line@] + lines_from(event@, next_q as int));
                proof {
                    lemma_data_items_cons(line@, lines_from(event@, next_q as int));
                }
                let ghost todo_after = data_items(lines_from(event@, next_q as int)) + after;
                match line_data_exec(&line) {
                    None => {
                        assert(data_items(lines_before) + after =~= todo_after);
                    },
                    Some(d) => {
                        let ghost todo = data_items(lines_before) + after;
                        assert(todo =~= seq![d@] + todo_after);
                        assert(todo[0] == d@);
                        assert(todo.drop_first() =~= todo_after);
                        if crate::text::str_eq(d.as_str(), "[DONE]") {
                            let end = if acc.as_str().is_empty() {
                                Err(build_error("response_parse", owned("The translation stream finished without any text."), target.provider, target.resolved_url.as_str(), model))
                            } else {
                                Ok(acc)
                            };
                            assert(goal.deltas =~= deltas_view(deltas@));
                            return StreamProgress { deltas, end: Some(end) };
                        }
                        match parse_json_text(d.as_str()) {
                            Err(e) => {
                                let message = concat("Failed to parse translation stream chunk: ", e.as_str());
                                let err = build_error("response_parse", message, target.provider, target.resolved_url.as_str(), model);
                                assert(goal.deltas =~= deltas_view(deltas@));
                                return StreamProgress { deltas, end: Some(Err(err)) };
                            },
                            Ok(v) => {
                                match extract_stream_delta(&v) {
                                    Some(x) => {
                                        if !x.as_str().is_empty() {
                                            let ghost old_view = deltas_view(deltas@);
                                            let ghost rest_run = run_items(todo_after, acc@ + x@, true, provider, url, model@);
                                            let next_acc = concat(acc.as_str(), x.as_str());
                                            let copy = owned(next_acc.as_str());
                                            deltas.push((x, copy));
                                            acc = next_acc;
                                            saw = true;
                                            assert(deltas_view(deltas@) =~= old_view.push((x@, acc@)));
                                            assert(goal.deltas =~= deltas_view(deltas@) + rest_run.deltas);
                                        }
                                    },
                                    None => {},
                                }
                            },
                        }
                    },
                }
                q = next_q;
            }
            proof {
                assert(lines_from(event@, q as int) == Seq::<Seq<char>>::empty());
                assert(data_items(Seq::<Seq<char>>::empty()) == Seq::<Seq<char>>::empty());
                assert(data_items(lines_from(event@, q as int)) + after =~= after);
            }
            p = k + 2;
        }
        let rest = slice_chars(&buf, p, n);
        self.buffer = string_of(rest.as_slice());
        self.accumulated = acc;
        self.saw_delta = saw;
        assert(goal.deltas =~= deltas_view(deltas@));
        StreamProgress { deltas, end: None }
    }

    /// The outcome of an answer whose byte stream ended without `[DONE]`:
    /// the answer so far when a delta came and it is not empty, an error otherwise.
    pub fn finish(&self, target: &ResolvedTranslationTarget, model: &str) -> (r: Result<String, TranslationErrorInfo>)
        ensures
            match r {
                Ok(t) => self.saw_delta() && self.accumulated().len() > 0 && t@ == self.accumulated(),
                Err(e) => !(self.saw_delta() && self.accumulated().len() > 0)
                    && e@ == stream_ended_error(target.provider, target.resolved_url@, model@),
            },
    {
        if self.saw_delta && !self.accumulated.as_str().is_empty() {
            Ok(owned(self.accumulated.as_str()))
        } else {
            Err(build_error("response_parse", owned("The translation stream ended before any text was received."), target.provider, target.resolved_url.as_str(), model))
        }
    }
}

/// The texts of announced deltas, joined in order.
pub open spec fn joined_deltas(d: Seq<(Seq<char>, Seq<char>)>) -> Seq<char>
    decreases d.len(),
{
    if d.len() == 0 {
        Seq::empty()
    } else {
        d[0].0 + joined_deltas(d.drop_first())
    }
}

/// Reading a streamed answer only ever extends it: every delta is announced
/// with the answer so far, which is the previous one followed by the delta;
/// the answer so far is the starting one followed by all deltas; and an
/// answer that ends well ends with exactly that text.
pub proof fn law_stream_answer_is_joined_deltas(
    items: Seq<Seq<char>>,
    acc: Seq<char>,
    saw: bool,
    provider: TranslationProvider,
    url: Seq<char>,
    model: Seq<char>,
)
    ensures
        ({
            let run = run_items(items, acc, saw, provider, url, model);
            &&& run.accumulated == acc + joined_deltas(run.deltas)
            &&& run.deltas.len() > 0 ==> run.deltas[0].1 == acc + run.deltas[0].0
            &&& forall|i: int|
                0 <= i < run.deltas.len() - 1 ==> #[trigger] run.deltas[i + 1].1 == run.deltas[i].1 + run.deltas[i + 1].0
            &&& run.end matches Some(Ok(t)) ==> t == run.accumulated
        }),
    decreases items.len(),
{
    let run = run_items(items, acc, saw, provider, url, model);
    if items.len() == 0 {
        assert(acc + joined_deltas(run.deltas) =~= acc);
    } else if items[0] == "[DONE]"@ {
        assert(acc + joined_deltas(run.deltas) =~= acc);
    } else {
        match parse_json_spec(items[0]) {
            Err(e) => {
                assert(acc + joined_deltas(run.deltas) =~= acc);
            },
            Ok(v) => match stream_delta_spec(v) {
                Some(x) => if x.len() > 0 {
                    let rest = run_items(items.drop_first(), acc + x, true, provider, url, model);
                    law_stream_answer_is_joined_deltas(items.drop_first(), acc + x, true, provider, url, model);
                    assert(run.deltas == seq![(x, acc + x)] + rest.deltas);
                    assert(run.deltas.drop_first() =~= rest.deltas);
                    assert(run.deltas[0] == (x, acc + x));
                    assert(joined_deltas(run.deltas) == x + joined_deltas(rest.deltas));
                    assert(acc + (x + joined_deltas(rest.deltas)) =~= (acc + x) + joined_deltas(rest.deltas));
                    assert forall|i: int| 0 <= i < run.deltas.len() - 1 implies #[trigger] run.deltas[i + 1].1 == run.deltas[i].1
                        + run.deltas[i + 1].0 by {
                        assert(run.deltas[i + 1] == rest.deltas[i]);
                        if i > 0 {
                            assert(run.deltas[i] == rest.deltas[i - 1]);
                            assert(rest.deltas[(i - 1) + 1].1 == rest.deltas[i - 1].1 + rest.deltas[(i - 1) + 1].0);
                        }
                    }
                } else {
                    law_stream_answer_is_joined_deltas(items.drop_first(), acc, saw, provider, url, model);
                },
                None => {
                    law_stream_answer_is_joined_deltas(items.drop_first(), acc, saw, provider, url, model);
                },
            },
        }
    }
}


/// A blank line found in `a` is found at the same place once more text follows.
proof fn lemma_blank_from_prefix(a: Seq<char>, b: Seq<char>, p: int)
    requires
        blank_from(a, p) is Some,
    ensures
        blank_from(a + b, p) == blank_from(a, p),
    decreases a.len() - p,
{
    let s = a + b;
    assert(s[p] == a[p] && s[p + 1] == a[p + 1]);
    if !(a[p] == '\n' && a[p + 1] == '\n') {
        lemma_blank_from_prefix(a, b, p + 1);
    }
}

/// Looking for a blank line from `p + i` in `s` is looking from `i` in what
/// follows position `p`.
proof fn lemma_blank_from_shift(s: Seq<char>, p: int, i: int)
    requires
        0 <= p <= s.len(),
        0 <= i,
    ensures
        blank_from(s, p + i) == (match blank_from(s.subrange(p, s.len() as int), i) {
            Some(k) => Some(k + p),
            None => None,
        }),
    decreases s.len() - p - i,
{
    let t = s.subrange(p, s.len() as int);
    if i + 1 < t.len() {
        assert(t[i] == s[p + i] && t[i + 1] == s[p + i + 1]);
        if !(t[i] == '\n' && t[i + 1] == '\n') {
            lemma_blank_from_shift(s, p, i + 1);
            assert(p + i + 1 == p + (i + 1));
        }
    }
}

/// Reading the events of `s` from `p + i` is reading those of what follows
/// position `p`, from `i`.
proof fn lemma_buffer_shift(s: Seq<char>, p: int, i: int)
    requires
        0 <= p <= s.len(),
        0 <= i,
    ensures
        buffer_items(s, p + i) == buffer_items(s.subrange(p, s.len() as int), i),
        buffer_rest(s, p + i) == buffer_rest(s.subrange(p, s.len() as int), i),
    decreases s.len() - p - i,
{
    let t = s.subrange(p, s.len() as int);
    lemma_blank_from_shift(s, p, i);
    match blank_from(t, i) {
        Some(k) => {
            lemma_blank_from_bounds(t, i);
            assert(s.subrange(p + i, k + p) =~= t.subrange(i, k));
            lemma_buffer_shift(s, p, k + 2);
            assert(p + (k + 2) == k + p + 2);
        },
        None => {
            if i <= t.len() {
                assert(s.subrange(p + i, s.len() as int) =~= t.subrange(i, t.len() as int));
            }
        },
    }
}

/// The events of `a` from `p` on, followed by those of what `a` left over
/// with `b` after it, are the events of `a + b` from `p` on, and both leave
/// the same text over.
proof fn lemma_buffer_split(a: Seq<char>, b: Seq<char>, p: int)
    requires
        0 <= p <= a.len(),
    ensures
        buffer_items(a, p) + buffer_items(buffer_rest(a, p) + b, 0) == buffer_items(a + b, p),
        buffer_rest(buffer_rest(a, p) + b, 0) == buffer_rest(a + b, p),
    decreases a.len() - p,
{
    let s = a + b;
    match blank_from(a, p) {
        Some(k) => {
            lemma_blank_from_bounds(a, p);
            lemma_blank_from_prefix(a, b, p);
            assert(s.subrange(p, k) =~= a.subrange(p, k));
            lemma_buffer_split(a, b, k + 2);
            let e = data_items(lines_of(a.subrange(p, k)));
            assert(buffer_items(a, p) == e + buffer_items(a, k + 2));
            assert(buffer_items(s, p) == e + buffer_items(s, k + 2));
            assert(e + buffer_items(a, k + 2) + buffer_items(buffer_rest(a, k + 2) + b, 0)
                =~= e + (buffer_items(a, k + 2) + buffer_items(buffer_rest(a, k + 2) + b, 0)));
        },
        None => {
            let r = a.subrange(p, a.len() as int);
            assert(s.subrange(p, s.len() as int) =~= r + b);
            lemma_buffer_shift(s, p, 0);
            assert(buffer_items(a, p) + buffer_items(r + b, 0) =~= buffer_items(r + b, 0));
        },
    }
}

/// Reading `i1` and then `i2` is reading `i1 + i2`: when the answer does not
/// end within `i1`, the reading of `i2` goes on from where `i1` left it;
/// when it does, nothing of `i2` is read.
proof fn lemma_run_items_append(
    i1: Seq<Seq<char>>,
    i2: Seq<Seq<char>>,
    acc: Seq<char>,
    saw: bool,
    provider: TranslationProvider,
    url: Seq<char>,
    model: Seq<char>,
)
    ensures
        ({
            let first = run_items(i1, acc, saw, provider, url, model);
            let one = run_items(i1 + i2, acc, saw, provider, url, model);
            let second = run_items(i2, first.accumulated, first.saw_delta, provider, url, model);
            &&& first.end is None ==> one.deltas == first.deltas + second.deltas && one.accumulated == second.accumulated
                && one.saw_delta == second.saw_delta && one.end == second.end
            &&& first.end is Some ==> one.deltas == first.deltas && one.accumulated == first.accumulated
                && one.saw_delta == first.saw_delta && one.end == first.end
        }),
    decreases i1.len(),
{
    let items = i1 + i2;
    if i1.len() == 0 {
        assert(items =~= i2);
        let second = run_items(i2, acc, saw, provider, url, model);
        assert(Seq::<(Seq<char>, Seq<char>)>::empty() + second.deltas =~= second.deltas);
    } else {
        assert(items[0] == i1[0]);
        assert(items.drop_first() =~= i1.drop_first() + i2);
        if i1[0] != "[DONE]"@ {
            match parse_json_spec(i1[0]) {
                Err(e) => {},
                Ok(v) => match stream_delta_spec(v) {
                    Some(x) => if x.len() > 0 {
                        lemma_run_items_append(i1.drop_first(), i2, acc + x, true, provider, url, model);
                        let rest1 = run_items(i1.drop_first(), acc + x, true, provider, url, model);
                        let second = run_items(i2, rest1.accumulated, rest1.saw_delta, provider, url, model);
                        assert(seq![(x, acc + x)] + (rest1.deltas + second.deltas) =~= (seq![(x, acc + x)] + rest1.deltas) + second.deltas);
                    } else {
                        lemma_run_items_append(i1.drop_first(), i2, acc, saw, provider, url, model);
                    },
                    None => {
                        lemma_run_items_append(i1.drop_first(), i2, acc, saw, provider, url, model);
                    },
                },
            }
        }
    }
}

/// An answer read in two pieces of text is read as if it came whole: an
/// event cut across the two pieces is read once the second piece completes
/// it, the deltas of the two readings together are those of one reading of
/// the joined text, the answer ends alike, and the same text is held back.
/// When the answer already ends within the first piece, the joined text
/// gives that same outcome.
pub proof fn law_chunks_read_as_whole(
    a: Seq<char>,
    b: Seq<char>,
    acc: Seq<char>,
    saw: bool,
    provider: TranslationProvider,
    url: Seq<char>,
    model: Seq<char>,
)
    ensures
        ({
            let first = run_items(buffer_items(a, 0), acc, saw, provider, url, model);
            let second = run_items(buffer_items(buffer_rest(a, 0) + b, 0), first.accumulated, first.saw_delta, provider, url, model);
            let whole = run_items(buffer_items(a + b, 0), acc, saw, provider, url, model);
            &&& first.end is None ==> whole.deltas == first.deltas + second.deltas && whole.end == second.end
                && whole.accumulated == second.accumulated && whole.saw_delta == second.saw_delta
                && buffer_rest(buffer_rest(a, 0) + b, 0) == buffer_rest(a + b, 0)
            &&& first.end is Some ==> whole.deltas == first.deltas && whole.end == first.end
        }),
{
    lemma_buffer_split(a, b, 0);
    lemma_run_items_append(buffer_items(a, 0), buffer_items(buffer_rest(a, 0) + b, 0), acc, saw, provider, url, model);
}

} // verus!
