use gpt_relay::error::AppError;
use gpt_relay::openai::{
    first_choice_reply, wrap_code_block, GPTChoice, GPTParameters, GPTResponse, GPTUsageStats,
    DEFAULT_MAX_TOKENS, DEFAULT_TEMPERATURE_HUNDREDTHS,
};

fn one_choice(text: &str) -> GPTResponse {
    GPTResponse {
        choices: vec![GPTChoice {
            text: text.to_owned(),
            index: 0,
            finish_reason: "stop".to_owned(),
        }],
        usage: GPTUsageStats { prompt_tokens: 3, completion_tokens: 5, total_tokens: 8 },
    }
}

#[test]
fn parameters_carry_the_fixed_model_and_temperature() {
    let p = GPTParameters::new("tell me a story", 50);
    assert_eq!(p.model, "text-davinci-002");
    assert_eq!(p.prompt, "tell me a story");
    assert_eq!(p.temperature_hundredths, 70);
    assert_eq!(p.max_tokens, 50);
}

#[test]
fn default_constants_hold_the_observed_values() {
    assert_eq!(DEFAULT_MAX_TOKENS, 50);
    assert_eq!(DEFAULT_TEMPERATURE_HUNDREDTHS, 70);
}

#[test]
fn parameters_keep_the_prompt_byte_for_byte() {
    let p = GPTParameters::new("  spaced  out  ", 1);
    assert_eq!(p.prompt, "  spaced  out  ");
    assert_eq!(p.max_tokens, 1);
}

#[test]
fn reply_wraps_the_first_choice_in_a_code_block() {
    let r = first_choice_reply(&one_choice("hello"));
    assert_eq!(r, Ok("```hello```".to_owned()));
}

#[test]
fn empty_choices_give_the_empty_choices_error() {
    let response = GPTResponse {
        choices: vec![],
        usage: GPTUsageStats { prompt_tokens: 3, completion_tokens: 0, total_tokens: 3 },
    };
    let r = first_choice_reply(&response);
    assert_eq!(r, Err(AppError::EmptyChoices));
}

#[test]
fn later_choices_are_not_used() {
    let response = GPTResponse {
        choices: vec![
            GPTChoice { text: "alpha".to_owned(), index: 0, finish_reason: "stop".to_owned() },
            GPTChoice { text: "beta".to_owned(), index: 1, finish_reason: "stop".to_owned() },
        ],
        usage: GPTUsageStats { prompt_tokens: 1, completion_tokens: 2, total_tokens: 3 },
    };
    let r = first_choice_reply(&response);
    assert_eq!(r, Ok("```alpha```".to_owned()));
}

#[test]
fn code_block_wraps_even_the_empty_string() {
    assert_eq!(wrap_code_block(""), "``````");
    assert_eq!(wrap_code_block("x"), "```x```");
}
