use textscan::reader::Reader;

fn accepts_start(u: u32) -> bool {
    let c = char::from_u32(u).unwrap();
    let s = c.to_string();
    let mut reader = Reader::new(&s);
    let r = reader.read_name_start_char();
    match r {
        Some(got) => {
            assert_eq!(got, c);
            assert_eq!(reader.offset(), 1);
            true
        }
        None => {
            assert_eq!(reader.offset(), 0);
            false
        }
    }
}

fn accepts_name(u: u32) -> bool {
    let c = char::from_u32(u).unwrap();
    let s = c.to_string();
    let mut reader = Reader::new(&s);
    let r = reader.read_name_char();
    match r {
        Some(got) => {
            assert_eq!(got, c);
            assert_eq!(reader.offset(), 1);
            true
        }
        None => {
            assert_eq!(reader.offset(), 0);
            false
        }
    }
}

#[test]
fn capture() {
    let mut reader = Reader::new("abcdefg");

    reader.consume_any("ab");
    let text = reader.capture(|reader| {
        reader.consume_any("cde");
    });

    assert_eq!(text.unwrap(), "cde");
}

#[test]
fn consume_whitespace() {
    let mut reader = Reader::new(" \t  \n\n  \tm ");

    reader.consume_whitespace();

    let (line, column) = reader.position();
    assert_eq!(line, 3);
    assert_eq!(column, 4);
    assert_eq!(reader.offset(), 9);
}

#[test]
fn read_name() {
    let mut reader = Reader::new("foo");
    assert_eq!(reader.read_name().unwrap(), "foo");

    let mut reader = Reader::new("foo bar");
    assert_eq!(reader.read_name().unwrap(), "foo");

    let mut reader = Reader::new("foo42 bar");
    assert_eq!(reader.read_name().unwrap(), "foo42");

    let mut reader = Reader::new("foo-bar baz");
    assert_eq!(reader.read_name().unwrap(), "foo-bar");

    let mut reader = Reader::new("foo/");
    assert_eq!(reader.read_name().unwrap(), "foo");

    let mut reader = Reader::new(" foo");
    assert!(reader.read_name().is_none());

    let mut reader = Reader::new("!foo");
    assert!(reader.read_name().is_none());

    let mut reader = Reader::new("<foo");
    assert!(reader.read_name().is_none());

    let mut reader = Reader::new("?foo");
    assert!(reader.read_name().is_none());
}

#[test]
fn read_char_matches_and_advances_once() {
    let mut reader = Reader::new("abc");

    assert_eq!(reader.read_char('a'), Some('a'));
    assert_eq!(reader.offset(), 1);

    assert_eq!(reader.read_char('x'), None);
    assert_eq!(reader.offset(), 1);

    assert_eq!(reader.read_char('b'), Some('b'));
    assert_eq!(reader.offset(), 2);
}

#[test]
fn consume_while_always_false_never_advances() {
    let mut reader = Reader::new("abc");
    reader.consume_while(|_| false);
    assert_eq!(reader.offset(), 0);
    assert_eq!(reader.position(), (1, 1));

    let mut reader = Reader::new("");
    reader.consume_while(|_| false);
    assert_eq!(reader.offset(), 0);
}

#[test]
fn consume_while_stops_at_first_failure() {
    let mut reader = Reader::new("aaab");
    reader.consume_while(|c| c == 'a');
    assert_eq!(reader.offset(), 3);
    assert_eq!(reader.peek(), Some('b'));
}

#[test]
fn capture_empty_is_no_match() {
    let mut reader = Reader::new("abc");
    let text = reader.capture(|_reader| {});
    assert!(text.is_none());
    assert_eq!(reader.offset(), 0);
}

#[test]
fn capture_returns_exact_slice() {
    let mut reader = Reader::new("xy123z");
    reader.consume_any("xy");
    let start = reader.offset();
    let text = reader.capture(|reader| {
        reader.consume_digits();
    });
    let end = reader.offset();
    assert_eq!(start, 2);
    assert_eq!(end, 5);
    assert_eq!(text.unwrap(), "123");
}

#[test]
fn capture_nests() {
    let mut reader = Reader::new("ab12cd");
    let outer = reader.capture(|reader| {
        reader.consume_any("ab");
        let inner = reader.capture(|reader| {
            reader.consume_digits();
        });
        assert_eq!(inner.unwrap(), "12");
        reader.consume_any("cd");
    });
    assert_eq!(outer.unwrap(), "ab12cd");
}

#[test]
fn consume_until_char_stops_before_target() {
    let mut reader = Reader::new("hello world");
    reader.consume_until_char(' ');
    assert_eq!(reader.offset(), 5);
    assert_eq!(reader.peek(), Some(' '));
}

#[test]
fn consume_until_char_runs_to_end_without_target() {
    let mut reader = Reader::new("hello");
    reader.consume_until_char('!');
    assert_eq!(reader.offset(), 5);
    assert_eq!(reader.peek(), None);
}

#[test]
fn consume_digits_consumes_ascii_digits_only() {
    let mut reader = Reader::new("0129a7");
    reader.consume_digits();
    assert_eq!(reader.offset(), 4);
    assert_eq!(reader.peek(), Some('a'));

    let mut reader = Reader::new("a1");
    reader.consume_digits();
    assert_eq!(reader.offset(), 0);
}

#[test]
fn next_tracks_lines_and_columns() {
    let mut reader = Reader::new("a\nb");

    assert_eq!(reader.position(), (1, 1));
    assert_eq!(reader.next(), Some('a'));
    assert_eq!(reader.position(), (1, 2));
    assert_eq!(reader.next(), Some('\n'));
    assert_eq!(reader.position(), (2, 1));
    assert_eq!(reader.next(), Some('b'));
    assert_eq!(reader.position(), (2, 2));
    assert_eq!(reader.offset(), 3);
    assert_eq!(reader.next(), None);
    assert_eq!(reader.offset(), 3);
    assert_eq!(reader.position(), (2, 2));
}

#[test]
fn peek_has_no_side_effects() {
    let mut reader = Reader::new("xy");
    assert_eq!(reader.peek(), Some('x'));
    assert_eq!(reader.peek(), Some('x'));
    assert_eq!(reader.offset(), 0);
    assert_eq!(reader.position(), (1, 1));
    reader.next();
    reader.next();
    assert_eq!(reader.peek(), None);
}

#[test]
fn empty_input_matches_nothing() {
    let mut reader = Reader::new("");
    assert_eq!(reader.peek(), None);
    assert_eq!(reader.next(), None);
    assert!(reader.read_char('a').is_none());
    assert!(reader.read_name_start_char().is_none());
    assert!(reader.read_name_char().is_none());
    assert!(reader.read_name().is_none());
    assert_eq!(reader.offset(), 0);
    assert_eq!(reader.position(), (1, 1));
}

#[test]
fn offsets_are_counted_in_characters() {
    let mut reader = Reader::new("\u{C0}b");
    assert_eq!(reader.next(), Some('\u{C0}'));
    assert_eq!(reader.offset(), 1);
    assert_eq!(reader.next(), Some('b'));
    assert_eq!(reader.offset(), 2);
}

#[test]
fn read_name_with_non_ascii_start() {
    let mut reader = Reader::new("\u{C0}b cd");
    assert_eq!(reader.read_name().unwrap(), "\u{C0}b");
    assert_eq!(reader.offset(), 2);
}

#[test]
fn name_start_class_ascii_boundaries() {
    assert!(accepts_start(0x3A)); // ':'
    assert!(!accepts_start(0x3B));
    assert!(!accepts_start(0x40));
    assert!(accepts_start(0x41)); // 'A'
    assert!(accepts_start(0x5A)); // 'Z'
    assert!(!accepts_start(0x5B));
    assert!(!accepts_start(0x5E));
    assert!(accepts_start(0x5F)); // '_'
    assert!(!accepts_start(0x60));
    assert!(accepts_start(0x61)); // 'a'
    assert!(accepts_start(0x7A)); // 'z'
    assert!(!accepts_start(0x7B));
}

#[test]
fn name_start_class_latin_boundaries() {
    assert!(!accepts_start(0xBF));
    assert!(accepts_start(0xC0));
    assert!(accepts_start(0xD6));
    assert!(!accepts_start(0xD7));
    assert!(accepts_start(0xD8));
    assert!(accepts_start(0xF6));
    assert!(!accepts_start(0xF7));
    assert!(accepts_start(0xF8));
    assert!(accepts_start(0x2FF));
    assert!(!accepts_start(0x300));
}

#[test]
fn name_start_class_higher_boundaries() {
    assert!(!accepts_start(0x36F));
    assert!(accepts_start(0x370));
    assert!(accepts_start(0x37D));
    assert!(!accepts_start(0x37E));
    assert!(accepts_start(0x37F));
    assert!(accepts_start(0x1FFF));
    assert!(!accepts_start(0x2000));
    assert!(!accepts_start(0x200B));
    assert!(accepts_start(0x200C));
    assert!(accepts_start(0x200D));
    assert!(!accepts_start(0x200E));
    assert!(!accepts_start(0x206F));
    assert!(accepts_start(0x2070));
    assert!(accepts_start(0x218F));
    assert!(!accepts_start(0x2190));
    assert!(!accepts_start(0x2BFF));
    assert!(accepts_start(0x2C00));
    assert!(accepts_start(0x2FEF));
    assert!(!accepts_start(0x2FF0));
    assert!(!accepts_start(0x3000));
    assert!(accepts_start(0x3001));
    assert!(accepts_start(0xD7FF));
    assert!(!accepts_start(0xE000));
    assert!(!accepts_start(0xF8FF));
    assert!(accepts_start(0xF900));
    assert!(accepts_start(0xFDCF));
    assert!(!accepts_start(0xFDD0));
    assert!(!accepts_start(0xFDEF));
    assert!(accepts_start(0xFDF0));
    assert!(accepts_start(0xFFFD));
    assert!(!accepts_start(0xFFFE));
    assert!(!accepts_start(0xFFFF));
    assert!(accepts_start(0x10000));
    assert!(accepts_start(0xEFFFF));
    assert!(!accepts_start(0xF0000));
}

#[test]
fn name_continuation_class_boundaries() {
    assert!(accepts_name(0x2D)); // '-'
    assert!(accepts_name(0x2E)); // '.'
    assert!(!accepts_name(0x2C)); // ','
    assert!(!accepts_name(0x2F)); // '/'
    assert!(accepts_name(0x30)); // '0'
    assert!(accepts_name(0x39)); // '9'
    assert!(!accepts_name(0xB6));
    assert!(accepts_name(0xB7));
    assert!(!accepts_name(0xB8));
    assert!(accepts_name(0x2FF)); // a start char, so also a continuation char
    assert!(accepts_name(0x300));
    assert!(accepts_name(0x36F));
    assert!(accepts_name(0x370)); // start char again
    assert!(!accepts_name(0x203E));
    assert!(accepts_name(0x203F));
    assert!(accepts_name(0x2040));
    assert!(!accepts_name(0x2041));
    // continuation-only characters are rejected at the start of a name
    assert!(!accepts_start(0x2D));
    assert!(!accepts_start(0x2E));
    assert!(!accepts_start(0x30));
    assert!(!accepts_start(0x39));
    assert!(!accepts_start(0xB7));
    assert!(!accepts_start(0x300));
    assert!(!accepts_start(0x36F));
    assert!(!accepts_start(0x203F));
    assert!(!accepts_start(0x2040));
}

#[test]
fn offset_never_decreases_over_a_scan() {
    let mut reader = Reader::new("ab 12\ncd-ef!");
    let mut last = reader.offset();

    reader.read_name();
    assert!(reader.offset() >= last);
    last = reader.offset();

    reader.consume_whitespace();
    assert!(reader.offset() >= last);
    last = reader.offset();

    reader.consume_digits();
    assert!(reader.offset() >= last);
    last = reader.offset();

    reader.read_char('x');
    assert!(reader.offset() >= last);
    last = reader.offset();

    reader.next();
    assert!(reader.offset() >= last);
    last = reader.offset();

    reader.capture(|reader| {
        reader.read_name();
    });
    assert!(reader.offset() >= last);
    last = reader.offset();

    reader.consume_until_char('!');
    assert!(reader.offset() >= last);
}
