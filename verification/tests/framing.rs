use ankiconnect_mcp::text::{decimal_text, join2, join3, same_text, trim, whitespace};
use ankiconnect_mcp::transport::{frame, unframe, FrameError};

#[test]
fn read_of_nothing_is_the_end_of_the_stream() {
    assert_eq!(unframe(0, ""), Err(FrameError::EndOfStream));
    assert_eq!(unframe(0, "{\"jsonrpc\":\"2.0\"}"), Err(FrameError::EndOfStream));
}

#[test]
fn line_of_white_space_is_an_error() {
    assert_eq!(unframe(1, "\n"), Err(FrameError::EmptyLine));
    assert_eq!(unframe(2, "\r\n"), Err(FrameError::EmptyLine));
    assert_eq!(unframe(5, "  \t \n"), Err(FrameError::EmptyLine));
    assert_eq!(unframe(3, "\u{3000}"), Err(FrameError::EmptyLine));
    assert_eq!(unframe(1, ""), Err(FrameError::EmptyLine));
}

#[test]
fn line_is_stripped_of_the_white_space_at_its_ends() {
    assert_eq!(unframe(3, "{}\n"), Ok("{}"));
    assert_eq!(unframe(9, "  {\"a\": 1}\r\n"), Ok("{\"a\": 1}"));
    assert_eq!(unframe(2, "{}"), Ok("{}"));
    assert_eq!(unframe(7, "\u{a0}x y\u{2028}"), Ok("x y"));
}

#[test]
fn frame_errors_describe_themselves() {
    assert_eq!(FrameError::EndOfStream.describe(), "EOF reached");
    assert_eq!(FrameError::EmptyLine.describe(), "Empty line received");
}

#[test]
fn frame_ends_the_text_with_a_newline() {
    assert_eq!(frame("{}"), "{}\n");
    assert_eq!(frame(""), "\n");
    assert_eq!(frame("é"), "é\n");
}

#[test]
fn framed_text_is_read_back() {
    let line = frame("{\"jsonrpc\":\"2.0\",\"method\":\"initialized\"}");
    assert_eq!(unframe(line.len(), &line), Ok("{\"jsonrpc\":\"2.0\",\"method\":\"initialized\"}"));
}

#[test]
fn trim_agrees_with_the_standard_library() {
    for s in [
        "",
        " ",
        "a",
        " a",
        "a ",
        "  a b  ",
        "\t\r\n x \u{b}\u{c}",
        "\u{85}\u{a0}\u{1680}\u{2000}\u{200a}\u{2028}\u{2029}\u{202f}\u{205f}\u{3000}é\u{3000}",
        "\u{200b}",
        " \u{200b} ",
        "日本語",
    ] {
        assert_eq!(trim(s), s.trim(), "for {:?}", s);
    }
}

#[test]
fn white_space_is_what_the_standard_library_says() {
    let mut code: u32 = 0;
    while code <= 0x10_ffff {
        if let Some(c) = char::from_u32(code) {
            assert_eq!(whitespace(c), c.is_whitespace(), "for U+{:04X}", code);
        }
        code += 1;
    }
}

#[test]
fn decimal_text_writes_numbers_without_leading_zeros() {
    assert_eq!(decimal_text(0), "0");
    assert_eq!(decimal_text(7), "7");
    assert_eq!(decimal_text(9), "9");
    assert_eq!(decimal_text(10), "10");
    assert_eq!(decimal_text(1234567890), "1234567890");
    assert_eq!(decimal_text(1_000_000), "1000000");
    assert_eq!(decimal_text(u64::MAX), "18446744073709551615");
}

#[test]
fn decimal_text_agrees_with_the_standard_library() {
    let mut n: u64 = 1;
    for _ in 0..64 {
        assert_eq!(decimal_text(n), n.to_string());
        assert_eq!(decimal_text(n - 1), (n - 1).to_string());
        n = n.wrapping_mul(3).wrapping_add(1);
    }
}

#[test]
fn texts_are_compared_character_by_character() {
    assert!(same_text("", ""));
    assert!(same_text("tools/list", "tools/list"));
    assert!(!same_text("tools/list", "tools/call"));
    assert!(!same_text("a", "A"));
    assert!(!same_text("a", "a "));
}

#[test]
fn texts_are_joined_in_order() {
    assert_eq!(join2("ab", "cd"), "abcd");
    assert_eq!(join2("", ""), "");
    assert_eq!(join3("Tool '", "x", "' not found"), "Tool 'x' not found");
    assert_eq!(join3("", "é", ""), "é");
}
