use think_stream::prompt::check_prompt;

#[test]
fn empty_prompt_is_rejected() {
    assert_eq!(check_prompt(""), Err("Prompt is empty".to_string()));
}

#[test]
fn nonempty_prompt_is_returned_unchanged() {
    assert_eq!(check_prompt("why is the sky blue"), Ok("why is the sky blue".to_string()));
}
