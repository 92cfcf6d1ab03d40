use kirogpt::template::{apply_templates, template_message, uwu_expansion, MissingSnippet, Templated};
use kirogpt::PromptDocument;

fn prompt(id: &str, text: &str) -> PromptDocument {
    PromptDocument { prompt_id: id.to_string(), prompt: text.to_string() }
}

fn all_prompts() -> Vec<PromptDocument> {
    vec![prompt("expert", "E"), prompt("jb", "J"), prompt("uwu", "Hi {FIRST_NAME}/{FULL_NAME}/{LAST_NAME}")]
}

#[test]
fn plain_text_loses_only_comma_space() {
    let r = apply_templates("hello, world, again,no space", 7, "E", "J", "U");
    assert_eq!(r, Some("helloworldagain,no space".to_string()));
}

#[test]
fn plain_text_without_comma_space_is_unchanged() {
    let r = apply_templates("just a message", 7, "E", "J", "U");
    assert_eq!(r, Some("just a message".to_string()));
}

#[test]
fn removing_comma_space_can_form_a_macro() {
    let r = apply_templates("!exp, ert", 7, "E", "J", "U");
    assert_eq!(r, Some("E".to_string()));
}

#[test]
fn mention_token_is_removed() {
    let r = apply_templates("<@1234> tell me <@99>", 1234, "E", "J", "U");
    assert_eq!(r, Some(" tell me <@99>".to_string()));
}

#[test]
fn uwu_snippet_fills_every_placeholder() {
    let r = uwu_expansion("Hi {FIRST_NAME}/{FULL_NAME}/{LAST_NAME}", "Jane Doe");
    assert_eq!(r, "Hi Jane Doe/Jane Doe/Jane Doe".to_string());
}

#[test]
fn uwu_snippet_common_placeholder_is_filled_too() {
    let r = uwu_expansion("{NAME} and {FIRST_NAME}", "Ann");
    assert_eq!(r, "Ann and Ann".to_string());
}

#[test]
fn uwu_name_comes_from_last_word() {
    let r = apply_templates("!uwu \"Jane Doe\"", 7, "E", "J", "Hi {FIRST_NAME}/{FULL_NAME}/{LAST_NAME}");
    assert_eq!(r, Some("Hi Doe/Doe/Doe \"Jane Doe\"".to_string()));
}

#[test]
fn uwu_single_quoted_name() {
    let r = apply_templates("!uwu \"Jane\"", 7, "E", "J", "Hi {FIRST_NAME}/{FULL_NAME}/{LAST_NAME}");
    assert_eq!(r, Some("Hi Jane/Jane/Jane \"Jane\"".to_string()));
}

#[test]
fn uwu_without_quote_asks_for_name() {
    let r = apply_templates("!uwu test", 7, "E", "J", "Hi {FIRST_NAME}");
    assert_eq!(r, None);
}

#[test]
fn uwu_name_ignores_trailing_whitespace() {
    let r = apply_templates("!uwu \"Bo\"  \n", 7, "E", "J", "<{LAST_NAME}>");
    assert_eq!(r, Some("<Bo> \"Bo\"  \n".to_string()));
}

#[test]
fn expert_is_expanded_before_jb() {
    let r = apply_templates("!expert !jb", 7, "E", "J", "U");
    assert_eq!(r, Some("E J".to_string()));
}

#[test]
fn expert_snippet_holding_jb_macro_is_expanded_again() {
    let r = apply_templates("!expert", 7, "x !jb", "J", "U");
    assert_eq!(r, Some("x J".to_string()));
}

#[test]
fn every_occurrence_is_expanded() {
    let r = apply_templates("!jb!jb", 7, "E", "J", "U");
    assert_eq!(r, Some("JJ".to_string()));
}

#[test]
fn template_message_uses_named_snippets() {
    let r = template_message("<@5> !expert, please", 5, &all_prompts());
    assert_eq!(r, Ok(Templated::Ready(" Eplease".to_string())));
}

#[test]
fn template_message_first_snippet_of_a_name_wins() {
    let mut prompts = all_prompts();
    prompts.push(prompt("expert", "second"));
    let r = template_message("!expert", 5, &prompts);
    assert_eq!(r, Ok(Templated::Ready("E".to_string())));
}

#[test]
fn template_message_reports_missing_name() {
    let r = template_message("!uwu nobody", 5, &all_prompts());
    assert_eq!(r, Ok(Templated::NameMissing));
}

#[test]
fn template_message_missing_expert() {
    let prompts = vec![prompt("jb", "J"), prompt("uwu", "U")];
    assert_eq!(template_message("hi", 5, &prompts), Err(MissingSnippet::Expert));
}

#[test]
fn template_message_missing_jb() {
    let prompts = vec![prompt("expert", "E"), prompt("uwu", "U")];
    assert_eq!(template_message("hi", 5, &prompts), Err(MissingSnippet::Jb));
}

#[test]
fn template_message_missing_uwu() {
    let prompts = vec![prompt("expert", "E"), prompt("jb", "J")];
    assert_eq!(template_message("hi", 5, &prompts), Err(MissingSnippet::Uwu));
}

#[test]
fn template_message_missing_snippet_even_when_unused() {
    assert_eq!(template_message("hi", 5, &Vec::new()), Err(MissingSnippet::Expert));
}
