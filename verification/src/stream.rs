//! The decoder of a streamed chat reply.
//!
//! A reply arrives as lines, each holding one JSON frame with a fragment of
//! the text and a completion flag. The decoder adds up the fragments and
//! hands out the whole text so far after every frame, until a frame reports
//! completion. Lines that are blank or hold no frame are passed over.

use crate::text::{chars_of, some_text, texts_view};
use vstd::prelude::*;
use vstd::string::*;

verus! {

/// A JSON value of `serde_json`. Nothing of its inside is seen here: what
/// it holds is read through `pointer`, `as_str` and `as_bool`.
#[verifier::external_type_specification]
#[verifier::external_body]
pub struct ExJsonValue(serde_json::Value);

/// The JSON value that a text stands for, where the text is one JSON
/// document.
pub uninterp spec fn json_document(text: Seq<char>) -> Option<serde_json::Value>;

/// The value that the JSON pointer `pointer` leads to inside `value`.
pub uninterp spec fn json_member(value: serde_json::Value, pointer: Seq<char>) -> Option<
    serde_json::Value,
>;

/// The text of a JSON value that is a string.
pub uninterp spec fn json_string(value: serde_json::Value) -> Option<Seq<char>>;

/// The truth value of a JSON value that is a boolean.
pub uninterp spec fn json_boolean(value: serde_json::Value) -> Option<bool>;

/// The value behind an optional reference.
pub open spec fn some_value(found: Option<&serde_json::Value>) -> Option<serde_json::Value> {
    match found {
        Some(value) => Some(*value),
        None => None,
    }
}

/// The view of an optional string slice.
pub open spec fn some_str(text: Option<&str>) -> Option<Seq<char>> {
    match text {
        Some(t) => Some(t@),
        None => None,
    }
}

/// `serde_json::from_str` for a `serde_json::Value`: the value that the
/// text stands for, and `None` where the parser reports an error. The
/// contract only names that result.
#[verifier::external_body]
fn parse_json(text: &str) -> (value: Option<serde_json::Value>)
    ensures
        value == json_document(text@),
{
    match serde_json::from_str::<serde_json::Value>(text) {
        Ok(value) => Some(value),
        Err(_) => None,
    }
}

/// `Value::pointer` looks a value up by a JSON pointer and returns `None`
/// where the pointer leads to none. The contract only names that result.
pub assume_specification<'a>[ serde_json::Value::pointer ](
    value: &'a serde_json::Value,
    pointer: &str,
) -> (found: Option<&'a serde_json::Value>)
    ensures
        some_value(found) == json_member(*value, pointer@),
;

/// `Value::as_str` returns the text of a value that is a string, and `None`
/// for any other value. The contract only names that result.
pub assume_specification<'a>[ serde_json::Value::as_str ](value: &'a serde_json::Value) -> (text:
    Option<&'a str>)
    ensures
        some_str(text) == json_string(*value),
;

/// `Value::as_bool` returns the truth value of a value that is a boolean,
/// and `None` for any other value. The contract only names that result.
pub assume_specification[ serde_json::Value::as_bool ](value: &serde_json::Value) -> (flag:
    Option<bool>)
    ensures
        flag == json_boolean(*value),
;

/// The string that `pointer` leads to inside `value`.
pub open spec fn json_text(value: serde_json::Value, pointer: Seq<char>) -> Option<Seq<char>> {
    match json_member(value, pointer) {
        Some(found) => json_string(found),
        None => None,
    }
}

/// The boolean that `pointer` leads to inside `value`.
pub open spec fn json_flag(value: serde_json::Value, pointer: Seq<char>) -> Option<bool> {
    match json_member(value, pointer) {
        Some(found) => json_boolean(found),
        None => None,
    }
}

/// The string that `pointer` leads to inside `value`.
pub fn json_text_at(value: &serde_json::Value, pointer: &str) -> (text: Option<String>)
    ensures
        some_text(text) == json_text(*value, pointer@),
{
    match value.pointer(pointer) {
        Some(found) => match found.as_str() {
            Some(text) => Some(String::from_str(text)),
            None => None,
        },
        None => None,
    }
}

/// The boolean that `pointer` leads to inside `value`.
pub fn json_flag_at(value: &serde_json::Value, pointer: &str) -> (flag: Option<bool>)
    ensures
        flag == json_flag(*value, pointer@),
{
    match value.pointer(pointer) {
        Some(found) => found.as_bool(),
        None => None,
    }
}

/// A character with the Unicode property `White_Space`.
pub open spec fn is_space(c: char) -> bool {
    let code = c as u32;
    ||| 0x09 <= code <= 0x0D
    ||| code == 0x20
    ||| code == 0x85
    ||| code == 0xA0
    ||| code == 0x1680
    ||| 0x2000 <= code <= 0x200A
    ||| code == 0x2028
    ||| code == 0x2029
    ||| code == 0x202F
    ||| code == 0x205F
    ||| code == 0x3000
}

/// A line of nothing but white space.
pub open spec fn is_blank(line: Seq<char>) -> bool {
    forall|i: int| 0 <= i < line.len() ==> is_space(#[trigger] line[i])
}

/// Whether `c` is white space.
pub fn space_char(c: char) -> (yes: bool)
    ensures
        yes == is_space(c),
{
    let code: u32 = c as u32;
    (0x09 <= code && code <= 0x0D) || code == 0x20 || code == 0x85 || code == 0xA0 || code
        == 0x1680 || (0x2000 <= code && code <= 0x200A) || code == 0x2028 || code == 0x2029
        || code == 0x202F || code == 0x205F || code == 0x3000
}

/// Whether `line` holds nothing but white space.
pub fn blank_line(line: &str) -> (yes: bool)
    ensures
        yes == is_blank(line@),
{
    let chars = chars_of(line);
    let mut i: usize = 0;
    while i < chars.len()
        invariant
            chars@ == line@,
            i <= chars@.len(),
            forall|j: int| 0 <= j < i ==> is_space(#[trigger] line@[j]),
        decreases chars@.len() - i,
    {
        if !space_char(chars[i]) {
            return false;
        }
        i += 1;
    }
    true
}

/// What a `StreamFrame` stands for in contracts.
pub ghost struct FrameView {
    pub content: Seq<char>,
    pub done: bool,
}

/// One decoded frame: a fragment of the reply and the completion flag.
#[derive(Debug)]
pub struct StreamFrame {
    pub content: String,
    pub done: bool,
}

impl View for StreamFrame {
    type V = FrameView;

    open spec fn view(&self) -> FrameView {
        FrameView { content: self.content@, done: self.done }
    }
}

/// The view of an optional frame.
pub open spec fn some_frame(frame: Option<StreamFrame>) -> Option<FrameView> {
    match frame {
        Some(f) => Some(f@),
        None => None,
    }
}

/// Where a frame holds its fragment.
pub open spec fn content_pointer() -> Seq<char> {
    "/message/content"@
}

/// Where a frame holds its completion flag.
pub open spec fn done_pointer() -> Seq<char> {
    "/done"@
}

/// The frame made of what was found in a line: there is one where both the
/// fragment and the flag were found.
pub open spec fn frame_from(content: Option<Seq<char>>, done: Option<bool>) -> Option<FrameView> {
    match (content, done) {
        (Some(c), Some(d)) => Some(FrameView { content: c, done: d }),
        _ => None,
    }
}

/// The frame that a JSON value holds: the one made of the string at
/// `/message/content` and the boolean at `/done`.
pub open spec fn frame_in(value: serde_json::Value) -> Option<FrameView> {
    frame_from(json_text(value, content_pointer()), json_flag(value, done_pointer()))
}

/// The frame that a line holds: none in a blank line and in a line that
/// is no JSON document, and otherwise the frame that the document holds.
pub open spec fn frame_of(line: Seq<char>) -> Option<FrameView> {
    if is_blank(line) {
        None
    } else {
        match json_document(line) {
            Some(value) => frame_in(value),
            None => None,
        }
    }
}

/// The frame made of what was found in a line.
pub fn build_frame(content: Option<String>, done: Option<bool>) -> (frame: Option<StreamFrame>)
    ensures
        some_frame(frame) == frame_from(some_text(content), done),
{
    match content {
        Some(content) => match done {
            Some(done) => Some(StreamFrame { content, done }),
            None => None,
        },
        None => None,
    }
}

/// The frame that the JSON value `value` holds.
pub fn frame_in_value(value: &serde_json::Value) -> (frame: Option<StreamFrame>)
    ensures
        some_frame(frame) == frame_in(*value),
{
    let content = json_text_at(value, "/message/content");
    let done = json_flag_at(value, "/done");
    build_frame(content, done)
}

/// Decodes one line of the stream.
pub fn decode_frame(line: &str) -> (frame: Option<StreamFrame>)
    ensures
        some_frame(frame) == frame_of(line@),
        is_blank(line@) ==> frame is None,
{
    if blank_line(line) {
        None
    } else {
        match parse_json(line) {
            Some(value) => frame_in_value(&value),
            None => None,
        }
    }
}

/// The mathematical model of a decoder: the text so far, and whether a
/// frame has reported completion.
pub ghost struct DecoderView {
    pub content: Seq<char>,
    pub done: bool,
}

impl DecoderView {
    /// The decoder before the first line.
    pub open spec fn start() -> DecoderView {
        DecoderView { content: Seq::empty(), done: false }
    }

    /// The decoder after a line that held `frame`: the fragment is added
    /// and the flag taken over, unless completion was reported before.
    pub open spec fn fed(self, frame: Option<FrameView>) -> DecoderView {
        match frame {
            Some(f) if !self.done => DecoderView { content: self.content + f.content, done: f.done },
            _ => self,
        }
    }

    /// What the consumer is told after a line that held `frame`: the whole
    /// text so far, where the line added to it.
    pub open spec fn update(self, frame: Option<FrameView>) -> Option<Seq<char>> {
        match frame {
            Some(f) if !self.done => Some(self.content + f.content),
            _ => None,
        }
    }

    /// The updates that the lines give, in order, and the decoder after
    /// them. No line is read after a frame has reported completion.
    pub open spec fn run(self, lines: Seq<Seq<char>>) -> (Seq<Seq<char>>, DecoderView)
        decreases lines.len(),
    {
        if lines.len() == 0 || self.done {
            (Seq::empty(), self)
        } else {
            let frame = frame_of(lines[0]);
            let rest = self.fed(frame).run(lines.drop_first());
            match self.update(frame) {
                Some(text) => (seq![text] + rest.0, rest.1),
                None => rest,
            }
        }
    }
}

/// The decoder of one streamed reply.
#[derive(Debug)]
pub struct StreamDecoder {
    content: String,
    done: bool,
}

impl View for StreamDecoder {
    type V = DecoderView;

    closed spec fn view(&self) -> DecoderView {
        DecoderView { content: self.content@, done: self.done }
    }
}

impl StreamDecoder {
    /// A decoder that has read nothing.
    pub fn new() -> (decoder: Self)
        ensures
            decoder@ == DecoderView::start(),
    {
        StreamDecoder { content: String::new(), done: false }
    }

    /// Whether a frame has reported completion.
    pub fn is_done(&self) -> (yes: bool)
        ensures
            yes == self@.done,
    {
        self.done
    }

    /// The text so far.
    pub fn content(&self) -> (text: &str)
        ensures
            text@ == self@.content,
    {
        self.content.as_str()
    }

    /// The text at the end of the stream, complete or not.
    pub fn into_content(self) -> (text: String)
        ensures
            text@ == self@.content,
    {
        self.content
    }

    /// Takes in what one line held, and returns the whole text so far
    /// where the line added to it.
    pub fn feed_frame(&mut self, frame: Option<StreamFrame>) -> (update: Option<String>)
        ensures
            final(self)@ == old(self)@.fed(some_frame(frame)),
            some_text(update) == old(self)@.update(some_frame(frame)),
    {
        if self.done {
            return None;
        }
        match frame {
            Some(f) => {
                self.content.append(f.content.as_str());
                self.done = f.done;
                Some(self.content.clone())
            },
            None => None,
        }
    }

    /// Takes in one line of the stream, and returns the whole text so far
    /// where the line added to it.
    pub fn feed_line(&mut self, line: &str) -> (update: Option<String>)
        ensures
            final(self)@ == old(self)@.fed(frame_of(line@)),
            some_text(update) == old(self)@.update(frame_of(line@)),
    {
        if self.done {
            return None;
        }
        let frame = decode_frame(line);
        self.feed_frame(frame)
    }
}

/// Decodes a whole stream: the updates in order, each the whole text so
/// far, and the text at the end. Reading stops with the first frame that
/// reports completion; a stream that ends without one gives what was
/// added up.
pub fn decode_lines(lines: &Vec<String>) -> (decoded: (Vec<String>, String))
    ensures
        texts_view(decoded.0@) == DecoderView::start().run(texts_view(lines@)).0,
        decoded.1@ == DecoderView::start().run(texts_view(lines@)).1.content,
{
    let mut decoder = StreamDecoder::new();
    let mut updates: Vec<String> = Vec::new();
    let mut i: usize = 0;
    let ghost all = texts_view(lines@);
    proof {
        assert(all.subrange(0, all.len() as int) =~= all);
        assert(texts_view(updates@) =~= Seq::<Seq<char>>::empty());
    }
    while i < lines.len() && !decoder.is_done()
        invariant
            i <= lines@.len(),
            all == texts_view(lines@),
            DecoderView::start().run(all).0 == texts_view(updates@) + decoder@.run(
                all.subrange(i as int, all.len() as int),
            ).0,
            DecoderView::start().run(all).1 == decoder@.run(
                all.subrange(i as int, all.len() as int),
            ).1,
        decreases lines@.len() - i,
    {
        let ghost before = decoder@;
        let ghost told = texts_view(updates@);
        let ghost rest = all.subrange(i as int, all.len() as int);
        let update = decoder.feed_line(lines[i].as_str());
        proof {
            assert(rest[0] == lines@[i as int]@);
            assert(rest.drop_first() =~= all.subrange(i + 1, all.len() as int));
        }
        match update {
            Some(text) => {
                updates.push(text);
                proof {
                    let tail = before.fed(frame_of(rest[0])).run(rest.drop_first()).0;
                    assert(texts_view(updates@) =~= told.push(text@));
                    assert(told + (seq![text@] + tail) =~= told.push(text@) + tail);
                }
            },
            None => {},
        }
        i += 1;
    }
    proof {
        let rest = all.subrange(i as int, all.len() as int);
        assert(decoder@.run(rest).0 =~= Seq::<Seq<char>>::empty());
        assert(texts_view(updates@) + Seq::<Seq<char>>::empty() =~= texts_view(updates@));
    }
    (updates, decoder.into_content())
}

/// A line that holds no frame, blank or not, changes nothing: the stream
/// with it decodes as the stream without it.
pub proof fn lemma_skipped_line(
    d: DecoderView,
    before: Seq<Seq<char>>,
    line: Seq<char>,
    after: Seq<Seq<char>>,
)
    requires
        frame_of(line) is None,
    ensures
        d.run(before + seq![line] + after) == d.run(before + after),
    decreases before.len(),
{
    let with = before + seq![line] + after;
    let without = before + after;
    if d.done {
    } else if before.len() == 0 {
        assert(with.drop_first() =~= after);
        assert(without =~= after);
        assert(with[0] == line);
    } else {
        let next = d.fed(frame_of(before[0]));
        lemma_skipped_line(next, before.drop_first(), line, after);
        assert(with.drop_first() =~= before.drop_first() + seq![line] + after);
        assert(without.drop_first() =~= before.drop_first() + after);
        assert(with[0] == before[0]);
        assert(without[0] == before[0]);
    }
}

/// A blank line holds no frame.
pub proof fn lemma_blank_line_has_no_frame(line: Seq<char>)
    requires
        is_blank(line),
    ensures
        frame_of(line) is None,
{
}

/// Nothing is read after a frame has reported completion: what follows it
/// in the stream does not matter.
pub proof fn lemma_nothing_read_after_completion(d: DecoderView, lines: Seq<Seq<char>>)
    requires
        d.done,
    ensures
        d.run(lines) == (Seq::<Seq<char>>::empty(), d),
{
}

} // verus!
