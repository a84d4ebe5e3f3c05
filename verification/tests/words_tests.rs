use stoat::words::Words;

#[test]
fn words_split_on_single_spaces() {
    let mut w = Words::new("a b  c");
    assert_eq!(w.next(), Some("a".to_string()));
    assert_eq!(w.next(), Some("b".to_string()));
    assert_eq!(w.next(), Some("".to_string()));
    assert_eq!(w.next(), Some("c".to_string()));
    assert_eq!(w.next(), None);
    assert_eq!(w.current_position(), 5);
}

#[test]
fn words_empty_input_has_one_empty_word() {
    let mut w = Words::new("");
    assert_eq!(w.current(), Some("".to_string()));
    assert_eq!(w.next(), Some("".to_string()));
    assert_eq!(w.next(), None);
}

#[test]
fn words_undo_restores_position() {
    let mut w = Words::new("one two three");
    assert_eq!(w.advance(), 0);
    assert_eq!(w.advance(), 1);
    assert_eq!(w.current(), Some("three".to_string()));
    assert_eq!(w.undo(), 2);
    assert_eq!(w.current_position(), 1);
    assert_eq!(w.current(), Some("two".to_string()));
}

#[test]
fn words_undo_at_start_wraps() {
    let mut w = Words::new("x");
    assert_eq!(w.undo(), 0);
    assert_eq!(w.current_position(), usize::MAX);
    assert_eq!(w.current(), None);
    assert_eq!(w.advance(), usize::MAX);
    assert_eq!(w.current_position(), 0);
    assert_eq!(w.current(), Some("x".to_string()));
}

#[test]
fn words_rest_takes_remaining_words() {
    let mut w = Words::new("cmd first second");
    w.advance();
    assert_eq!(w.rest(), vec!["first".to_string(), "second".to_string()]);
    assert_eq!(w.current_position(), 3);
    assert_eq!(w.rest(), Vec::<String>::new());
}

#[test]
fn words_advance_to_end() {
    let mut w = Words::new("a b");
    assert_eq!(w.advance_to_end(), 0);
    assert_eq!(w.current_position(), 2);
    assert_eq!(w.current(), None);
    assert_eq!(w.next(), None);
    assert_eq!(w.current_position(), 3);
}
