use aria_parser::ast::{Location, SourceBuffer};

#[test]
fn stdin_buffer_is_named_stdin() {
    let buffer = SourceBuffer::stdin("val x = 1;\n");
    assert_eq!(buffer.name, "<stdin>");
    assert_eq!(buffer.as_str(), "val x = 1;\n");
}

#[test]
fn stdin_with_name_keeps_the_name() {
    let buffer = SourceBuffer::stdin_with_name("abc", "main.aria");
    assert_eq!(buffer.name, "main.aria");
    assert_eq!(buffer.content.as_str(), "abc");
}

#[test]
fn loaded_text_is_named_by_canonical_path() {
    let buffer = SourceBuffer::from_loaded_text(
        "x".to_owned(),
        Some("/tmp/a/x.aria".to_owned()),
        "x.aria",
    );
    assert_eq!(buffer.name, "/tmp/a/x.aria");
    assert_eq!(buffer.as_str(), "x");
}

#[test]
fn loaded_text_falls_back_to_given_path() {
    let buffer = SourceBuffer::from_loaded_text("y".to_owned(), None, "tests/y.aria");
    assert_eq!(buffer.name, "tests/y.aria");
}

#[test]
fn pointer_keeps_location_and_buffer() {
    let buffer = SourceBuffer::stdin("hello world");
    let ptr = buffer.pointer(Location { start: 2, stop: 5 });
    assert_eq!(ptr.location, Location { start: 2, stop: 5 });
    assert_eq!(ptr.buffer, buffer);
}

#[test]
fn clone_of_buffer_is_equal() {
    let buffer = SourceBuffer::stdin_with_name("text", "n");
    let copy = buffer.clone();
    assert_eq!(copy, buffer);
}

#[test]
fn lines_split_on_line_feeds() {
    let buffer = SourceBuffer::stdin("a\nbc\n\nd");
    assert_eq!(buffer.lines(), vec!["a", "bc", "", "d"]);
}

#[test]
fn lines_drop_carriage_returns_and_last_line_feed() {
    let buffer = SourceBuffer::stdin("one\r\ntwo\r\n");
    assert_eq!(buffer.lines(), vec!["one", "two"]);
}

#[test]
fn lines_of_empty_text() {
    let buffer = SourceBuffer::stdin("");
    assert!(buffer.lines().is_empty());
}

#[test]
fn lines_of_lone_line_feed() {
    let buffer = SourceBuffer::stdin("\n");
    assert_eq!(buffer.lines(), vec![""]);
}

#[test]
fn indices_of_middle_line() {
    let buffer = SourceBuffer::stdin("ab\ncde\nf");
    assert_eq!(buffer.indices_for_position(4), (3, 6));
    assert_eq!(buffer.indices_for_position(3), (3, 6));
    assert_eq!(buffer.indices_for_position(6), (3, 6));
}

#[test]
fn indices_of_first_and_last_line() {
    let buffer = SourceBuffer::stdin("ab\ncde\nf");
    assert_eq!(buffer.indices_for_position(0), (0, 2));
    assert_eq!(buffer.indices_for_position(7), (7, 8));
    assert_eq!(buffer.indices_for_position(8), (7, 8));
}

#[test]
fn indices_on_a_line_feed_end_there() {
    let buffer = SourceBuffer::stdin("ab\ncde\nf");
    assert_eq!(buffer.indices_for_position(2), (0, 2));
}

#[test]
fn line_for_position_gives_the_line_text() {
    let buffer = SourceBuffer::stdin("first\nsecond line\nthird");
    assert_eq!(buffer.line_for_position(8), "second line");
    assert_eq!(buffer.line_for_position(0), "first");
    assert_eq!(buffer.line_for_position(23), "third");
}

#[test]
fn line_for_position_with_multibyte_text() {
    let buffer = SourceBuffer::stdin("é\nàb");
    assert_eq!(buffer.line_for_position(3), "àb");
    assert_eq!(buffer.line_for_position(0), "é");
}

#[test]
fn line_index_counts_line_feeds_before() {
    let buffer = SourceBuffer::stdin("a\nb\nc");
    assert_eq!(buffer.line_index_for_position(0), 0);
    assert_eq!(buffer.line_index_for_position(1), 0);
    assert_eq!(buffer.line_index_for_position(2), 1);
    assert_eq!(buffer.line_index_for_position(4), 2);
    assert_eq!(buffer.line_index_for_position(5), 2);
}

#[test]
fn pointer_to_whole_buffer_spans_the_text() {
    let buffer = SourceBuffer::stdin("héllo");
    let ptr = buffer.pointer_to_whole_buffer();
    assert_eq!(ptr.location, Location { start: 0, stop: 6 });
    assert_eq!(ptr.buffer, buffer);
}

#[test]
fn pointer_to_last_line_spans_it() {
    let buffer = SourceBuffer::stdin("one\ntwo\nthree");
    let ptr = buffer.pointer_to_last_line();
    assert_eq!(ptr.location, Location { start: 8, stop: 13 });
}

#[test]
fn pointer_to_last_line_after_final_line_feed() {
    let buffer = SourceBuffer::stdin("one\ntwo\n");
    let ptr = buffer.pointer_to_last_line();
    assert_eq!(ptr.location, Location { start: 4, stop: 7 });
}

#[test]
fn pointer_text_is_name_and_line_number() {
    let buffer = SourceBuffer::stdin_with_name("a\nb\nc", "file.aria");
    assert_eq!(buffer.pointer(Location { start: 0, stop: 1 }).to_string(), "file.aria:1");
    assert_eq!(buffer.pointer(Location { start: 4, stop: 5 }).to_string(), "file.aria:3");
}

#[test]
fn pointer_text_on_line_twelve() {
    let text = "\n".repeat(11) + "x";
    let buffer = SourceBuffer::stdin(&text);
    assert_eq!(buffer.pointer(Location { start: 11, stop: 12 }).to_string(), "<stdin>:12");
}

#[test]
fn line_index_picks_the_line_holding_a_position() {
    let buffer = SourceBuffer::stdin("ab\ncd\n\nef");
    let lines = buffer.lines();
    for pos in 0..=buffer.as_str().len() {
        let index = buffer.line_index_for_position(pos);
        assert_eq!(lines[index], buffer.line_for_position(pos));
    }
}

#[test]
fn line_index_and_carriage_returns() {
    let buffer = SourceBuffer::stdin("ab\r\ncd");
    let lines = buffer.lines();
    assert_eq!(buffer.line_for_position(1), "ab\r");
    assert_eq!(lines[buffer.line_index_for_position(1)], "ab");
    assert_eq!(lines[buffer.line_index_for_position(5)], buffer.line_for_position(5));
}

#[test]
fn buffer_reads_as_its_text() {
    let buffer = SourceBuffer::stdin("fn main() {}");
    let text: &str = buffer.as_ref();
    assert_eq!(text, "fn main() {}");
}
