//! The decoder for the provider's token stream: `data: <json>` lines, each
//! event carrying text deltas under `choices[i].delta.content`.
//!
//! Bytes are split into lines first and each line is decoded on its own, so a
//! line that arrives in several chunks decodes as if it had come in one.

use vstd::prelude::*;
use vstd::string::StringExecFns;
use crate::json::{get_member, get_text, member, node_of, parse_json, parsed_json, text_in, JsonNode, json_node};

verus! {

/// The line feed byte that ends a line.
pub const NEWLINE: u8 = 10;

/// The characters that a byte sequence reads as, with each invalid UTF-8
/// sequence replaced by U+FFFD.
pub uninterp spec fn lossy_text(bytes: Seq<u8>) -> Seq<char>;

/// Relies on String::from_utf8_lossy: the text of the bytes, invalid
/// sequences replaced rather than refused.
#[verifier::external_body]
fn decode_lossy(bytes: &[u8]) -> (r: String)
    ensures
        r@ == lossy_text(bytes@),
{
    String::from_utf8_lossy(bytes).into_owned()
}

/// `data: `, the prefix of a line that carries an event.
pub open spec fn data_prefix() -> Seq<u8> {
    seq![100u8, 97u8, 116u8, 97u8, 58u8, 32u8]
}

/// `[DONE]`, the payload of the provider's end-of-stream line.
pub open spec fn done_marker() -> Seq<u8> {
    seq![91u8, 68u8, 79u8, 78u8, 69u8, 93u8]
}

pub open spec fn choices_key() -> Seq<char> {
    seq!['c', 'h', 'o', 'i', 'c', 'e', 's']
}

pub open spec fn delta_key() -> Seq<char> {
    seq!['d', 'e', 'l', 't', 'a']
}

pub open spec fn content_key() -> Seq<char> {
    seq!['c', 'o', 'n', 't', 'e', 'n', 't']
}

/// The delta text of one choice: `delta.content` when it is a string.
pub open spec fn choice_text(choice: serde_json::Value) -> Seq<char> {
    match member(choice, delta_key()) {
        Some(delta) => match member(delta, content_key()) {
            Some(content) => text_in(content),
            None => Seq::empty(),
        },
        None => Seq::empty(),
    }
}

/// The delta texts of the first `choices.len()` choices, in array order.
pub open spec fn choices_text(choices: Seq<serde_json::Value>) -> Seq<char>
    decreases choices.len(),
{
    if choices.len() == 0 {
        Seq::empty()
    } else {
        choices_text(choices.drop_last()) + choice_text(choices.last())
    }
}

/// The text that one event carries: the deltas of its `choices` array.
pub open spec fn event_text(event: serde_json::Value) -> Seq<char> {
    match member(event, choices_key()) {
        Some(choices) => match json_node(choices) {
            JsonNode::Array(items) => choices_text(items@),
            _ => Seq::empty(),
        },
        None => Seq::empty(),
    }
}

/// Whether a line carries an event prefix.
pub open spec fn is_data_line(line: Seq<u8>) -> bool {
    line.len() >= 6 && line.subrange(0, 6) == data_prefix()
}

/// What follows the `data: ` prefix.
pub open spec fn payload(line: Seq<u8>) -> Seq<u8> {
    line.subrange(6, line.len() as int)
}

/// The text that one line (without its line feed) contributes: nothing for
/// lines without the prefix, for the end marker, and for payloads that are not
/// JSON; otherwise the deltas of the event.
pub open spec fn line_text(line: Seq<u8>) -> Seq<char> {
    if is_data_line(line) && payload(line) != done_marker() {
        match parsed_json(lossy_text(payload(line))) {
            Some(event) => event_text(event),
            None => Seq::empty(),
        }
    } else {
        Seq::empty()
    }
}

/// The bytes after the last line feed: the line not yet ended.
pub open spec fn open_line(s: Seq<u8>) -> Seq<u8>
    decreases s.len(),
{
    if s.len() == 0 {
        Seq::empty()
    } else if s.last() == NEWLINE {
        Seq::empty()
    } else {
        open_line(s.drop_last()).push(s.last())
    }
}

/// The text of every line that a line feed has ended, in order.
pub open spec fn closed_text(s: Seq<u8>) -> Seq<char>
    decreases s.len(),
{
    if s.len() == 0 {
        Seq::empty()
    } else if s.last() == NEWLINE {
        closed_text(s.drop_last()) + line_text(open_line(s.drop_last()))
    } else {
        closed_text(s.drop_last())
    }
}

/// The text of a whole stream: every line, the last one ended by the close of
/// the connection.
pub open spec fn stream_text(s: Seq<u8>) -> Seq<char> {
    closed_text(s) + line_text(open_line(s))
}

/// The text that a call hands out.
pub open spec fn emitted(r: Option<String>) -> Seq<char> {
    match r {
        Some(s) => s@,
        None => Seq::empty(),
    }
}

/// A call hands out text only when there is some.
pub open spec fn nonempty_item(r: Option<String>) -> bool {
    r matches Some(s) ==> s@.len() > 0
}

pub open spec fn has_no_newline(s: Seq<u8>) -> bool {
    forall|k: int| 0 <= k < s.len() ==> s[k] != NEWLINE
}

/// Decodes a byte stream that arrives in chunks.
pub struct StreamDecoder {
    pending: Vec<u8>,
}

impl View for StreamDecoder {
    type V = Seq<u8>;

    /// The bytes of the line that has begun and not yet ended.
    closed spec fn view(&self) -> Seq<u8> {
        self.pending@
    }
}

impl StreamDecoder {
    #[verifier::type_invariant]
    spec fn inv(&self) -> bool {
        has_no_newline(self.pending@)
    }

    /// A decoder that has seen nothing.
    pub fn new() -> (d: StreamDecoder)
        ensures
            d@ == Seq::<u8>::empty(),
    {
        StreamDecoder { pending: Vec::new() }
    }

    /// Takes the next chunk and hands out the text of the lines that it ends,
    /// or None when they carry none.
    pub fn feed(&mut self, chunk: &[u8]) -> (r: Option<String>)
        ensures
            final(self)@ == open_line(old(self)@ + chunk@),
            emitted(r) == closed_text(old(self)@ + chunk@),
            nonempty_item(r),
    {
        proof {
            use_type_invariant(&*self);
        }
        let ghost start = self.pending@;
        let mut line: Vec<u8> = Vec::new();
        std::mem::swap(&mut line, &mut self.pending);
        proof {
            lemma_no_newline(start);
            assert(start + chunk@.subrange(0, 0) =~= start);
        }
        let mut out = String::new();
        let mut i: usize = 0;
        while i < chunk.len()
            invariant
                i <= chunk@.len(),
                out@ == closed_text(start + chunk@.subrange(0, i as int)),
                line@ == open_line(start + chunk@.subrange(0, i as int)),
            decreases chunk@.len() - i,
        {
            let ghost before = start + chunk@.subrange(0, i as int);
            let ghost after = start + chunk@.subrange(0, i + 1);
            proof {
                assert(after.drop_last() =~= before);
                assert(after.last() == chunk@[i as int]);
            }
            let b = chunk[i];
            if b == NEWLINE {
                let text = line_output(&line);
                out.append(text.as_str());
                line = Vec::new();
            } else {
                line.push(b);
            }
            i = i + 1;
        }
        proof {
            assert(start + chunk@.subrange(0, chunk@.len() as int) =~= start + chunk@);
            lemma_open_line_has_no_newline(start + chunk@);
        }
        self.pending = line;
        if out.as_str().is_empty() {
            None
        } else {
            Some(out)
        }
    }

    /// Ends the stream: hands out the text of the line still open, if it
    /// carries any, and leaves the decoder empty.
    pub fn finish(&mut self) -> (r: Option<String>)
        ensures
            final(self)@ == Seq::<u8>::empty(),
            emitted(r) == line_text(old(self)@),
            nonempty_item(r),
    {
        let mut line: Vec<u8> = Vec::new();
        std::mem::swap(&mut line, &mut self.pending);
        let text = line_output(&line);
        if text.as_str().is_empty() {
            None
        } else {
            Some(text)
        }
    }
}

/// Whether the line starts with `data: `.
fn has_data_prefix(line: &Vec<u8>) -> (r: bool)
    ensures
        r == is_data_line(line@),
{
    if line.len() < 6 {
        return false;
    }
    let r = line[0] == 100 && line[1] == 97 && line[2] == 116 && line[3] == 97 && line[4] == 58
        && line[5] == 32;
    proof {
        let head = line@.subrange(0, 6);
        if r {
            assert(head =~= data_prefix());
        } else {
            assert(head[0] != data_prefix()[0] || head[1] != data_prefix()[1] || head[2]
                != data_prefix()[2] || head[3] != data_prefix()[3] || head[4]
                != data_prefix()[4] || head[5] != data_prefix()[5]);
        }
    }
    r
}

/// Whether the payload is `[DONE]`.
fn is_done_marker(p: &[u8]) -> (r: bool)
    ensures
        r == (p@ == done_marker()),
{
    if p.len() != 6 {
        return false;
    }
    let r = p[0] == 91 && p[1] == 68 && p[2] == 79 && p[3] == 78 && p[4] == 69 && p[5] == 93;
    proof {
        if r {
            assert(p@ =~= done_marker());
        } else {
            assert(p@[0] != done_marker()[0] || p@[1] != done_marker()[1] || p@[2]
                != done_marker()[2] || p@[3] != done_marker()[3] || p@[4]
                != done_marker()[4] || p@[5] != done_marker()[5]);
        }
    }
    r
}

/// The delta texts of the choices, in array order.
fn choices_output(choices: &Vec<serde_json::Value>) -> (r: String)
    ensures
        r@ == choices_text(choices@),
{
    let mut out = String::new();
    let mut i: usize = 0;
    proof {
        reveal_strlit("delta");
        reveal_strlit("content");
        assert("delta"@ =~= delta_key());
        assert("content"@ =~= content_key());
    }
    while i < choices.len()
        invariant
            i <= choices@.len(),
            "delta"@ == delta_key(),
            "content"@ == content_key(),
            out@ == choices_text(choices@.subrange(0, i as int)),
        decreases choices@.len() - i,
    {
        proof {
            let next = choices@.subrange(0, i + 1);
            assert(next.drop_last() =~= choices@.subrange(0, i as int));
            assert(next.last() == choices@[i as int]);
        }
        if let Some(delta) = get_member(&choices[i], "delta") {
            if let Some(content) = get_member(&delta, "content") {
                let t = get_text(&content);
                out.append(t.as_str());
            }
        }
        i = i + 1;
    }
    proof {
        assert(choices@.subrange(0, choices@.len() as int) =~= choices@);
    }
    out
}

/// The text that one event carries.
fn event_output(event: &serde_json::Value) -> (r: String)
    ensures
        r@ == event_text(*event),
{
    proof {
        reveal_strlit("choices");
        assert("choices"@ =~= choices_key());
    }
    match get_member(event, "choices") {
        Some(choices) => match node_of(&choices) {
            JsonNode::Array(items) => choices_output(&items),
            _ => String::new(),
        },
        None => String::new(),
    }
}

/// The text that one line, without its line feed, contributes.
pub fn line_output(line: &Vec<u8>) -> (r: String)
    ensures
        r@ == line_text(line@),
{
    if !has_data_prefix(line) {
        return String::new();
    }
    let p = vstd::slice::slice_subrange(line.as_slice(), 6, line.len());
    if is_done_marker(p) {
        return String::new();
    }
    let text = decode_lossy(p);
    match parse_json(text.as_str()) {
        Some(event) => event_output(&event),
        None => String::new(),
    }
}

/// A line without line feeds is all open: no line of it has ended.
pub proof fn lemma_no_newline(s: Seq<u8>)
    requires
        has_no_newline(s),
    ensures
        open_line(s) == s,
        closed_text(s) == Seq::<char>::empty(),
    decreases s.len(),
{
    if s.len() > 0 {
        lemma_no_newline(s.drop_last());
        assert(s.drop_last().push(s.last()) =~= s);
    }
}

/// The open line holds no line feed.
pub proof fn lemma_open_line_has_no_newline(s: Seq<u8>)
    ensures
        has_no_newline(open_line(s)),
    decreases s.len(),
{
    if s.len() > 0 {
        lemma_open_line_has_no_newline(s.drop_last());
    }
}

/// Splitting a stream after `a`: the open line of the whole is the open line
/// of what `a` leaves open followed by `b`.
pub proof fn lemma_open_line_append(a: Seq<u8>, b: Seq<u8>)
    ensures
        open_line(a + b) == open_line(open_line(a) + b),
    decreases b.len(),
{
    if b.len() == 0 {
        assert(a + b =~= a);
        assert(open_line(a) + b =~= open_line(a));
        lemma_open_line_has_no_newline(a);
        lemma_no_newline(open_line(a));
    } else {
        lemma_open_line_append(a, b.drop_last());
        assert((a + b).drop_last() =~= a + b.drop_last());
        assert((open_line(a) + b).drop_last() =~= open_line(a) + b.drop_last());
    }
}

/// Splitting a stream after `a`: the ended lines of the whole are those of `a`
/// followed by those that `b` ends, starting from the line `a` left open.
pub proof fn lemma_closed_text_append(a: Seq<u8>, b: Seq<u8>)
    ensures
        closed_text(a + b) == closed_text(a) + closed_text(open_line(a) + b),
    decreases b.len(),
{
    if b.len() == 0 {
        assert(a + b =~= a);
        assert(open_line(a) + b =~= open_line(a));
        lemma_open_line_has_no_newline(a);
        lemma_no_newline(open_line(a));
        assert(closed_text(a) + Seq::<char>::empty() =~= closed_text(a));
    } else {
        let b0 = b.drop_last();
        lemma_closed_text_append(a, b0);
        lemma_open_line_append(a, b0);
        assert((a + b).drop_last() =~= a + b0);
        assert((open_line(a) + b).drop_last() =~= open_line(a) + b0);
        if b.last() == NEWLINE {
            let x = closed_text(a);
            let y = closed_text(open_line(a) + b0);
            let z = line_text(open_line(a + b0));
            assert(x + y + z =~= x + (y + z));
        }
    }
}

/// A line that contributes no text, put between whole lines of a stream,
/// changes nothing in what the stream decodes to: decoding goes on after it.
pub proof fn lemma_silent_line(a: Seq<u8>, line: Seq<u8>, b: Seq<u8>)
    requires
        open_line(a) == Seq::<u8>::empty(),
        has_no_newline(line),
        line_text(line) == Seq::<char>::empty(),
    ensures
        stream_text(a + (line.push(NEWLINE) + b)) == stream_text(a + b),
{
    let x = line.push(NEWLINE);
    lemma_no_newline(line);
    assert(x.drop_last() =~= line);
    assert(closed_text(x) =~= Seq::<char>::empty());
    lemma_closed_text_append(a, x + b);
    lemma_open_line_append(a, x + b);
    lemma_closed_text_append(x, b);
    lemma_open_line_append(x, b);
    lemma_closed_text_append(a, b);
    lemma_open_line_append(a, b);
    assert(open_line(a) + (x + b) =~= x + b);
    assert(open_line(a) + b =~= b);
    assert(open_line(x) + b =~= b);
    assert(Seq::<char>::empty() + closed_text(b) =~= closed_text(b));
}

/// The line `data: [DONE]` contributes no text, and a stream decodes to the
/// same text with or without it.
pub proof fn lemma_done_line_is_silent(a: Seq<u8>, b: Seq<u8>)
    requires
        open_line(a) == Seq::<u8>::empty(),
    ensures
        line_text(data_prefix() + done_marker()) == Seq::<char>::empty(),
        stream_text(a + ((data_prefix() + done_marker()).push(NEWLINE) + b)) == stream_text(a + b),
{
    let line = data_prefix() + done_marker();
    assert(line.subrange(0, 6) =~= data_prefix());
    assert(payload(line) =~= done_marker());
    assert(has_no_newline(line));
    lemma_silent_line(a, line, b);
}

/// An event line whose payload is not JSON is skipped: it contributes no
/// text, and the lines after it are decoded as if it were not there.
pub proof fn lemma_malformed_line_is_skipped(a: Seq<u8>, body: Seq<u8>, b: Seq<u8>)
    requires
        open_line(a) == Seq::<u8>::empty(),
        has_no_newline(body),
        parsed_json(lossy_text(body)) is None,
    ensures
        line_text(data_prefix() + body) == Seq::<char>::empty(),
        stream_text(a + ((data_prefix() + body).push(NEWLINE) + b)) == stream_text(a + b),
{
    let line = data_prefix() + body;
    assert(line.subrange(0, 6) =~= data_prefix());
    assert(payload(line) =~= body);
    assert(has_no_newline(line));
    lemma_silent_line(a, line, b);
}

/// The bytes of all chunks, one after another.
pub open spec fn joined(chunks: Seq<Seq<u8>>) -> Seq<u8>
    decreases chunks.len(),
{
    if chunks.len() == 0 {
        Seq::empty()
    } else {
        chunks[0] + joined(chunks.drop_first())
    }
}

/// The text that a decoder holding the open line `pending` hands out when fed
/// `chunks` one at a time and then finished.
pub open spec fn decoded_chunks(pending: Seq<u8>, chunks: Seq<Seq<u8>>) -> Seq<char>
    decreases chunks.len(),
{
    if chunks.len() == 0 {
        line_text(pending)
    } else {
        closed_text(pending + chunks[0]) + decoded_chunks(
            open_line(pending + chunks[0]),
            chunks.drop_first(),
        )
    }
}

proof fn lemma_decoded_from(pending: Seq<u8>, chunks: Seq<Seq<u8>>)
    requires
        has_no_newline(pending),
    ensures
        decoded_chunks(pending, chunks) == stream_text(pending + joined(chunks)),
    decreases chunks.len(),
{
    if chunks.len() == 0 {
        lemma_no_newline(pending);
        assert(pending + joined(chunks) =~= pending);
        assert(Seq::<char>::empty() + line_text(pending) =~= line_text(pending));
    } else {
        let c = chunks[0];
        let rest = joined(chunks.drop_first());
        let head = pending + c;
        lemma_open_line_has_no_newline(head);
        lemma_decoded_from(open_line(head), chunks.drop_first());
        lemma_closed_text_append(head, rest);
        lemma_open_line_append(head, rest);
        assert(pending + joined(chunks) =~= head + rest);
        let x = closed_text(head);
        let y = closed_text(open_line(head) + rest);
        let z = line_text(open_line(open_line(head) + rest));
        assert(x + (y + z) =~= x + y + z);
    }
}

/// However a byte stream is cut into chunks, feeding the chunks in order and
/// then finishing hands out the same text: that of the whole stream, every
/// delta of every line in arrival order.
pub proof fn lemma_chunking_invariant(chunks: Seq<Seq<u8>>, other: Seq<Seq<u8>>)
    ensures
        decoded_chunks(Seq::empty(), chunks) == stream_text(joined(chunks)),
        joined(chunks) == joined(other) ==> decoded_chunks(Seq::empty(), chunks)
            == decoded_chunks(Seq::empty(), other),
{
    lemma_decoded_from(Seq::empty(), chunks);
    lemma_decoded_from(Seq::empty(), other);
    assert(Seq::<u8>::empty() + joined(chunks) =~= joined(chunks));
    assert(Seq::<u8>::empty() + joined(other) =~= joined(other));
}

/// The concatenation of the items handed out.
pub open spec fn items_text(items: Seq<String>) -> Seq<char>
    decreases items.len(),
{
    if items.len() == 0 {
        Seq::empty()
    } else {
        items_text(items.drop_last()) + items.last()@
    }
}

/// The byte views of the chunks.
pub open spec fn chunk_views(chunks: Seq<Vec<u8>>) -> Seq<Seq<u8>> {
    chunks.map_values(|c: Vec<u8>| c@)
}

/// Decodes a whole stream given as its chunks: one item for each chunk whose
/// ended lines carry text, and one for the last line if it carries text.
pub fn decode_stream(chunks: &Vec<Vec<u8>>) -> (r: Vec<String>)
    ensures
        items_text(r@) == stream_text(joined(chunk_views(chunks@))),
        forall|k: int| 0 <= k < r@.len() ==> r@[k]@.len() > 0,
{
    let ghost cv = chunk_views(chunks@);
    let mut decoder = StreamDecoder::new();
    let mut out: Vec<String> = Vec::new();
    let mut i: usize = 0;
    proof {
        assert(cv.subrange(0, cv.len() as int) =~= cv);
    }
    while i < chunks.len()
        invariant
            cv == chunk_views(chunks@),
            i <= chunks@.len(),
            items_text(out@) + decoded_chunks(decoder@, cv.subrange(i as int, cv.len() as int))
                == decoded_chunks(Seq::empty(), cv),
            forall|k: int| 0 <= k < out@.len() ==> out@[k]@.len() > 0,
        decreases chunks@.len() - i,
    {
        let ghost p = decoder@;
        let ghost tail = cv.subrange(i as int, cv.len() as int);
        proof {
            assert(tail[0] == chunks@[i as int]@);
            assert(tail.drop_first() =~= cv.subrange(i + 1, cv.len() as int));
        }
        let item = decoder.feed(chunks[i].as_slice());
        let ghost later = decoded_chunks(decoder@, cv.subrange(i + 1, cv.len() as int));
        match item {
            Some(s) => {
                let ghost before = out@;
                out.push(s);
                proof {
                    assert(out@.drop_last() =~= before);
                    assert(items_text(before) + (s@ + later) =~= items_text(before) + s@
                        + later);
                }
            },
            None => {
                assert(Seq::<char>::empty() + later =~= later);
            },
        }
        i = i + 1;
    }
    let ghost p = decoder@;
    let last = decoder.finish();
    proof {
        assert(cv.subrange(cv.len() as int, cv.len() as int) =~= Seq::<Seq<u8>>::empty());
    }
    match last {
        Some(s) => {
            let ghost before = out@;
            out.push(s);
            proof {
                assert(out@.drop_last() =~= before);
            }
        },
        None => {
            assert(items_text(out@) + Seq::<char>::empty() =~= items_text(out@));
        },
    }
    proof {
        lemma_chunking_invariant(cv, cv);
    }
    out
}

} // verus!
