use ollama_cli::stream::{
    blank_line, build_frame, decode_frame, decode_lines, frame_in_value, json_flag_at,
    json_text_at, space_char, StreamDecoder, StreamFrame,
};

fn lines(items: &[&str]) -> Vec<String> {
    items.iter().map(|s| s.to_string()).collect()
}

const HE: &str = "{\"message\":{\"content\":\"He\"},\"done\":false}";
const LLO: &str = "{\"message\":{\"content\":\"llo\"},\"done\":true}";
const MORE: &str = "{\"message\":{\"content\":\"!!\"},\"done\":false}";

#[test]
fn two_frames_give_two_updates() {
    let (updates, text) = decode_lines(&lines(&[HE, LLO]));
    assert_eq!(updates, vec!["He".to_string(), "Hello".to_string()]);
    assert_eq!(text, "Hello");
}

#[test]
fn nothing_is_read_after_completion() {
    let (updates, text) = decode_lines(&lines(&[HE, LLO, MORE, HE]));
    assert_eq!(updates, vec!["He".to_string(), "Hello".to_string()]);
    assert_eq!(text, "Hello");
    let mut decoder = StreamDecoder::new();
    assert_eq!(decoder.feed_line(LLO), Some("llo".to_string()));
    assert!(decoder.is_done());
    assert_eq!(decoder.feed_line(MORE), None);
    assert_eq!(decoder.content(), "llo");
}

#[test]
fn a_blank_line_does_not_interrupt() {
    let (updates, text) = decode_lines(&lines(&[HE, "", "   \t", LLO]));
    assert_eq!(updates, vec!["He".to_string(), "Hello".to_string()]);
    assert_eq!(text, "Hello");
}

#[test]
fn an_unparsable_line_does_not_interrupt() {
    let (updates, text) = decode_lines(&lines(&[HE, "{\"message\":", "not json", "[1,2]", LLO]));
    assert_eq!(updates, vec!["He".to_string(), "Hello".to_string()]);
    assert_eq!(text, "Hello");
}

#[test]
fn a_stream_that_ends_early_gives_what_it_had() {
    let (updates, text) = decode_lines(&lines(&[HE, MORE]));
    assert_eq!(updates, vec!["He".to_string(), "He!!".to_string()]);
    assert_eq!(text, "He!!");
    let (updates, text) = decode_lines(&Vec::new());
    assert!(updates.is_empty());
    assert_eq!(text, "");
}

#[test]
fn the_decoder_adds_up_line_by_line() {
    let mut decoder = StreamDecoder::new();
    assert!(!decoder.is_done());
    assert_eq!(decoder.content(), "");
    assert_eq!(decoder.feed_line(HE), Some("He".to_string()));
    assert_eq!(decoder.feed_line(""), None);
    assert_eq!(decoder.feed_line("garbage"), None);
    assert!(!decoder.is_done());
    assert_eq!(decoder.feed_line(LLO), Some("Hello".to_string()));
    assert!(decoder.is_done());
    assert_eq!(decoder.into_content(), "Hello");
}

#[test]
fn a_frame_is_fed_as_a_value() {
    let mut decoder = StreamDecoder::new();
    assert_eq!(decoder.feed_frame(None), None);
    let update = decoder.feed_frame(Some(StreamFrame { content: "a".to_string(), done: false }));
    assert_eq!(update, Some("a".to_string()));
    let update = decoder.feed_frame(Some(StreamFrame { content: "b".to_string(), done: true }));
    assert_eq!(update, Some("ab".to_string()));
    let update = decoder.feed_frame(Some(StreamFrame { content: "c".to_string(), done: false }));
    assert_eq!(update, None);
    assert_eq!(decoder.content(), "ab");
}

#[test]
fn a_frame_needs_a_fragment_and_a_flag() {
    let frame = decode_frame(HE).unwrap();
    assert_eq!(frame.content, "He");
    assert!(!frame.done);
    let frame = decode_frame(LLO).unwrap();
    assert_eq!(frame.content, "llo");
    assert!(frame.done);
    let full = "{\"model\":\"m\",\"message\":{\"role\":\"assistant\",\"content\":\"x\"},\"done\":true}";
    let frame = decode_frame(full).unwrap();
    assert_eq!(frame.content, "x");
    assert!(frame.done);
    assert!(decode_frame("{\"message\":{\"content\":\"He\"}}").is_none());
    assert!(decode_frame("{\"done\":false}").is_none());
    assert!(decode_frame("{\"message\":{\"content\":7},\"done\":false}").is_none());
    assert!(decode_frame("{\"message\":{\"content\":\"x\"},\"done\":\"no\"}").is_none());
    assert!(decode_frame("{\"message\":\"x\",\"done\":true}").is_none());
    assert!(decode_frame("").is_none());
    assert!(decode_frame("  ").is_none());
    assert!(build_frame(Some("x".to_string()), None).is_none());
    assert!(build_frame(None, Some(true)).is_none());
    assert!(build_frame(Some("x".to_string()), Some(true)).unwrap().done);
}

#[test]
fn white_space_is_told_apart() {
    for c in [' ', '\t', '\n', '\r', '\u{0B}', '\u{0C}', '\u{85}', '\u{A0}', '\u{1680}', '\u{2000}', '\u{200A}', '\u{2028}', '\u{2029}', '\u{202F}', '\u{205F}', '\u{3000}'] {
        assert!(space_char(c));
        assert!(c.is_whitespace());
    }
    for c in ['a', '0', '{', '\u{08}', '\u{0E}', '\u{200B}', '\u{FEFF}'] {
        assert!(!space_char(c));
        assert!(!c.is_whitespace());
    }
    assert!(blank_line(""));
    assert!(blank_line(" \t\r"));
    assert!(!blank_line(" x "));
}

#[test]
fn space_char_agrees_with_the_standard_library() {
    let mut code: u32 = 0;
    while code < 0x11000 {
        if let Some(c) = char::from_u32(code) {
            assert_eq!(space_char(c), c.is_whitespace());
        }
        code += 1;
    }
}

fn document(text: &str) -> serde_json::Value {
    serde_json::from_str(text).unwrap()
}

#[test]
fn a_pointer_leads_to_a_string_or_a_flag() {
    let value = document("{\"a\":{\"b\":\"x\",\"c\":true},\"d\":[\"y\",false],\"e\":1}");
    assert_eq!(json_text_at(&value, "/a/b"), Some("x".to_string()));
    assert_eq!(json_text_at(&value, "/d/0"), Some("y".to_string()));
    assert_eq!(json_text_at(&value, "/a/c"), None);
    assert_eq!(json_text_at(&value, "/a"), None);
    assert_eq!(json_text_at(&value, "/e"), None);
    assert_eq!(json_text_at(&value, "/missing"), None);
    assert_eq!(json_text_at(&value, "a/b"), None);
    assert_eq!(json_text_at(&document("\"top\""), ""), Some("top".to_string()));
    assert_eq!(json_flag_at(&value, "/a/c"), Some(true));
    assert_eq!(json_flag_at(&value, "/d/1"), Some(false));
    assert_eq!(json_flag_at(&value, "/a/b"), None);
    assert_eq!(json_flag_at(&value, "/d/2"), None);
    assert_eq!(json_flag_at(&value, "/e"), None);
}

#[test]
fn a_document_holds_a_frame_or_none() {
    let frame = frame_in_value(&document(HE)).unwrap();
    assert_eq!(frame.content, "He");
    assert!(!frame.done);
    assert!(frame_in_value(&document("{\"message\":{},\"done\":true}")).is_none());
    assert!(frame_in_value(&document("[]")).is_none());
    assert!(frame_in_value(&document("null")).is_none());
    let escaped = frame_in_value(&document("{\"message\":{\"content\":\"a\\nb \\u00e9\"},\"done\":true}")).unwrap();
    assert_eq!(escaped.content, "a\nb é");
    assert!(escaped.done);
}
