use think_stream::render::{Phase, Session, TermOp};

fn chars(s: &str) -> Vec<char> {
    s.chars().collect()
}

fn feed(session: &mut Session, fragment: &str) -> Vec<TermOp> {
    session.process_fragment(&chars(fragment), 80, 3)
}

#[test]
fn enter_marker_alone_produces_no_output() {
    let mut s = Session::new();
    let ops = feed(&mut s, "<think>");
    assert_eq!(ops, vec![]);
    assert!(matches!(s.state.phase, Phase::Thinking));
    assert!(s.buffer.is_empty());
}

#[test]
fn full_reasoning_then_answer_sequence() {
    let mut s = Session::new();
    assert_eq!(feed(&mut s, "<think>"), vec![]);
    assert_eq!(
        feed(&mut s, "hmm"),
        vec![TermOp::WriteThinkingLine(chars("hmm"))]
    );
    assert_eq!(
        feed(&mut s, "</think>"),
        vec![TermOp::ClearLastLines(1), TermOp::WriteAnswerPrefix]
    );
    assert!(matches!(s.state.phase, Phase::Answering));
    assert_eq!(feed(&mut s, "Hello"), vec![TermOp::Write(chars("Hello"))]);
}

#[test]
fn plain_fragments_append_raw() {
    let mut s = Session::new();
    assert_eq!(feed(&mut s, "Hi"), vec![TermOp::Write(chars("Hi"))]);
    assert_eq!(feed(&mut s, " there"), vec![TermOp::Write(chars(" there"))]);
    assert!(s.state.answer_started);
    assert!(matches!(s.state.phase, Phase::Answering));
}

#[test]
fn reasoning_line_is_truncated_to_width() {
    let mut s = Session::new();
    feed(&mut s, "<think>");
    let ops = s.process_fragment(&chars("abcdefghij"), 10, 3);
    assert_eq!(ops, vec![TermOp::WriteThinkingLine(chars("...ghij"))]);
}

#[test]
fn leading_blank_line_is_suppressed() {
    let mut s = Session::new();
    assert_eq!(feed(&mut s, "\n"), vec![]);
    assert!(!s.state.answer_started);
    assert_eq!(feed(&mut s, "text"), vec![TermOp::Write(chars("text"))]);
    assert!(s.state.answer_started);
}

#[test]
fn blank_line_kept_once_answer_started() {
    let mut s = Session::new();
    feed(&mut s, "words");
    assert_eq!(feed(&mut s, "\n"), vec![TermOp::Write(chars("\n"))]);
}

#[test]
fn completed_line_not_starting_with_newline_is_written() {
    let mut s = Session::new();
    assert_eq!(feed(&mut s, "one\n"), vec![TermOp::Write(chars("one\n"))]);
    assert!(s.state.answer_started);
}

#[test]
fn second_reasoning_redraw_clears_previous_line() {
    let mut s = Session::new();
    feed(&mut s, "<think>");
    assert_eq!(feed(&mut s, "ab"), vec![TermOp::WriteThinkingLine(chars("ab"))]);
    assert_eq!(
        feed(&mut s, "cd"),
        vec![TermOp::ClearLastLines(1), TermOp::WriteThinkingLine(chars("abcd"))]
    );
    assert_eq!(s.buffer, chars("abcd"));
}

#[test]
fn reasoning_completed_line_is_cleared_not_printed() {
    let mut s = Session::new();
    feed(&mut s, "<think>");
    feed(&mut s, "step one");
    assert_eq!(feed(&mut s, " done\n"), vec![TermOp::ClearLine]);
    assert!(s.buffer.is_empty());
    assert!(matches!(s.state.phase, Phase::Thinking));
}

#[test]
fn exit_marker_split_across_fragments_is_detected() {
    let mut s = Session::new();
    feed(&mut s, "<think>");
    feed(&mut s, "a");
    feed(&mut s, "</th");
    assert_eq!(
        feed(&mut s, "ink>"),
        vec![TermOp::ClearLastLines(1), TermOp::WriteAnswerPrefix]
    );
    assert!(matches!(s.state.phase, Phase::Answering));
}

#[test]
fn marker_inside_buffer_but_not_suffix_does_not_fire() {
    let mut s = Session::new();
    let ops = feed(&mut s, "<think>x");
    assert_eq!(ops, vec![TermOp::Write(chars("<think>x"))]);
    assert!(matches!(s.state.phase, Phase::Answering));
}

#[test]
fn width_smaller_than_prefix_degrades_to_empty() {
    let mut s = Session::new();
    feed(&mut s, "<think>");
    let ops = s.process_fragment(&chars("abc"), 2, 3);
    assert_eq!(ops, vec![TermOp::WriteThinkingLine(chars(""))]);
}

#[test]
fn exit_without_reasoning_text_clears_one_line_and_writes_prefix() {
    let mut s = Session::new();
    feed(&mut s, "<think>");
    let ops = feed(&mut s, "</think>");
    assert_eq!(ops, vec![TermOp::ClearLastLines(1), TermOp::WriteAnswerPrefix]);
    assert!(matches!(s.state.phase, Phase::Answering));
}

#[test]
fn unterminated_marker_at_end_of_stream_is_plain_text() {
    let mut s = Session::new();
    let ops = feed(&mut s, "<thi");
    assert_eq!(ops, vec![TermOp::Write(chars("<thi"))]);
    assert_eq!(s.buffer, chars("<thi"));
}
