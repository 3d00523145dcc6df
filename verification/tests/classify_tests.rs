use gpt_relay::classify::{classify, ClassifiedRequest};

#[test]
fn command_with_prompt_is_complete() {
    let r = classify("!gpt3 hello world", "!gpt3");
    assert_eq!(
        r,
        ClassifiedRequest::Complete { prompt: "hello world".to_owned() }
    );
}

#[test]
fn prefix_in_the_middle_is_ignored() {
    let r = classify("hello !gpt3 x", "!gpt3");
    assert_eq!(r, ClassifiedRequest::Ignore);
}

#[test]
fn bare_prefix_without_space_is_ignored() {
    let r = classify("!gpt3", "!gpt3");
    assert_eq!(r, ClassifiedRequest::Ignore);
}

#[test]
fn prefix_with_space_and_nothing_after_keeps_empty_prompt() {
    let r = classify("!gpt3 ", "!gpt3");
    assert_eq!(r, ClassifiedRequest::Complete { prompt: String::new() });
}

#[test]
fn whitespace_prompt_is_passed_through_untrimmed() {
    let r = classify("!gpt3   padded  ", "!gpt3");
    assert_eq!(
        r,
        ClassifiedRequest::Complete { prompt: "  padded  ".to_owned() }
    );
}

#[test]
fn matching_is_case_sensitive() {
    let r = classify("!GPT3 hello", "!gpt3");
    assert_eq!(r, ClassifiedRequest::Ignore);
}

#[test]
fn prefix_followed_by_other_character_is_ignored() {
    let r = classify("!gpt3x hello", "!gpt3");
    assert_eq!(r, ClassifiedRequest::Ignore);
}

#[test]
fn empty_text_is_ignored() {
    let r = classify("", "!gpt3");
    assert_eq!(r, ClassifiedRequest::Ignore);
}

#[test]
fn different_prefix_is_respected() {
    let r = classify("?ask what is up", "?ask");
    assert_eq!(
        r,
        ClassifiedRequest::Complete { prompt: "what is up".to_owned() }
    );
}

#[test]
fn non_ascii_text_splits_on_characters() {
    let r = classify("!gpt3 héllo wörld", "!gpt3");
    assert_eq!(
        r,
        ClassifiedRequest::Complete { prompt: "héllo wörld".to_owned() }
    );
}
