use playwright_driver::text::{decode, first_line, push_exit_code, trim};

#[test]
fn white_space_around_a_text_is_trimmed() {
    assert_eq!(trim(""), "");
    assert_eq!(trim(" \t\r\n"), "");
    assert_eq!(trim("a"), "a");
    assert_eq!(trim("\u{3000} a b \u{a0}\r\n"), "a b");
    assert_eq!(trim(&trim("  x ")), trim("  x "));
}

#[test]
fn every_character_is_trimmed_as_the_standard_library_does() {
    for c in '\u{0}'..=char::MAX {
        let mut text = String::new();
        text.push(c);
        assert_eq!(trim(&text), text.trim());
    }
}

#[test]
fn a_line_ending_does_not_count() {
    for text in ["/usr/bin/deno", "", "a b", "\n"] {
        assert_eq!(trim(&format!("{}\n", text)), trim(text));
        assert_eq!(trim(&format!("{}\r\n", text)), trim(text));
    }
}

#[test]
fn the_first_line_ends_at_its_line_ending() {
    for text in ["", "a", "a\nb", "a\r\nb\r\n", "\nb", "\r\nb", "a\rb\nc", "a\r", "\u{e4}\n", "a\n\r\n"] {
        assert_eq!(first_line(text), text.lines().next().unwrap_or(text));
    }
}

#[test]
fn exit_codes_are_appended() {
    let mut text = "code ".to_string();
    push_exit_code(&mut text, Some(-40));
    push_exit_code(&mut text, None);
    assert_eq!(text, "code Some(-40)None");
}

#[test]
fn bytes_are_decoded() {
    assert_eq!(decode(b""), "");
    assert_eq!(decode("/opt/n\u{e4}h \u{1f600}\n".as_bytes()), "/opt/n\u{e4}h \u{1f600}\n");
    assert_eq!(decode(b"a\xffb\xe2\x82"), "a\u{fffd}b\u{fffd}");
}
