//! Rewriting of the user's text before it is sent to the completion service.
//!
//! The rules run in a fixed order: the bot's mention token is removed, every
//! `", "` is removed, `!expert` and then `!jb` are replaced by their snippets,
//! and finally `!uwu` is replaced by the `uwu` snippet filled in with the name
//! quoted in the last word of the text.
use vstd::prelude::*;
use crate::model::PromptDocument;
use crate::text::{
    chars_of, decimal, decimal_exec, last_word, last_word_exec, lemma_replaced_absent,
    matches_at_exec, occurs, occurs_in, replace_all, replaced, string_of,
};

verus! {

/// The token by which the platform writes a mention of user `id`: `<@id>`.
pub open spec fn mention_token(id: u64) -> Seq<char> {
    seq!['<', '@'] + decimal(id as nat) + seq!['>']
}

/// The comma-space pair, removed everywhere from the user's text.
pub open spec fn comma_space() -> Seq<char> {
    seq![',', ' ']
}

pub open spec fn expert_macro() -> Seq<char> {
    seq!['!', 'e', 'x', 'p', 'e', 'r', 't']
}

pub open spec fn jb_macro() -> Seq<char> {
    seq!['!', 'j', 'b']
}

pub open spec fn uwu_macro() -> Seq<char> {
    seq!['!', 'u', 'w', 'u']
}

pub open spec fn quote() -> Seq<char> {
    seq!['"']
}

pub open spec fn first_name_placeholder() -> Seq<char> {
    seq!['{', 'F', 'I', 'R', 'S', 'T', '_', 'N', 'A', 'M', 'E', '}']
}

pub open spec fn full_name_placeholder() -> Seq<char> {
    seq!['{', 'F', 'U', 'L', 'L', '_', 'N', 'A', 'M', 'E', '}']
}

pub open spec fn last_name_placeholder() -> Seq<char> {
    seq!['{', 'L', 'A', 'S', 'T', '_', 'N', 'A', 'M', 'E', '}']
}

pub open spec fn name_placeholder() -> Seq<char> {
    seq!['{', 'N', 'A', 'M', 'E', '}']
}

/// The `uwu` snippet with each of the three name placeholders, and the common
/// one they are first turned into, replaced by `name`.
pub open spec fn uwu_text(snippet: Seq<char>, name: Seq<char>) -> Seq<char> {
    let a = replaced(snippet, first_name_placeholder(), name_placeholder());
    let b = replaced(a, full_name_placeholder(), name_placeholder());
    let c = replaced(b, last_name_placeholder(), name_placeholder());
    replaced(c, name_placeholder(), name)
}

/// The name that the text's last word gives, with its quote characters
/// removed; `None` when the last word holds no quote character.
pub open spec fn quoted_name(text: Seq<char>) -> Option<Seq<char>> {
    let w = last_word(text);
    if occurs_in(w, quote()) {
        Some(replaced(w, quote(), Seq::empty()))
    } else {
        None
    }
}

/// The text after the mention token and every `", "` are removed.
pub open spec fn cleaned(content: Seq<char>, bot_id: u64) -> Seq<char> {
    replaced(replaced(content, mention_token(bot_id), Seq::empty()), comma_space(), Seq::empty())
}

/// The text after the `!expert` and `!jb` macros are expanded, in that order.
pub open spec fn with_snippets(text: Seq<char>, expert: Seq<char>, jb: Seq<char>) -> Seq<char> {
    replaced(replaced(text, expert_macro(), expert), jb_macro(), jb)
}

/// The `!uwu` step: the text unchanged when it holds no `!uwu`; the macro
/// filled in with the quoted name when there is one; `None` (the user is
/// asked for a name) when there is none.
pub open spec fn with_uwu(text: Seq<char>, uwu: Seq<char>) -> Option<Seq<char>> {
    if occurs_in(text, uwu_macro()) {
        match quoted_name(text) {
            Some(name) => Some(replaced(text, uwu_macro(), uwu_text(uwu, name))),
            None => None,
        }
    } else {
        Some(text)
    }
}

/// The whole rewrite of a user's message.
pub open spec fn templated(
    content: Seq<char>,
    bot_id: u64,
    expert: Seq<char>,
    jb: Seq<char>,
    uwu: Seq<char>,
) -> Option<Seq<char>> {
    with_uwu(with_snippets(cleaned(content, bot_id), expert, jb), uwu)
}

/// The text of the first snippet named `id`, if any.
pub open spec fn snippet_of(prompts: Seq<PromptDocument>, id: Seq<char>) -> Option<Seq<char>>
    decreases prompts.len(),
{
    if prompts.len() == 0 {
        None
    } else if prompts[0].prompt_id@ == id {
        Some(prompts[0].prompt@)
    } else {
        snippet_of(prompts.drop_first(), id)
    }
}

pub open spec fn expert_id() -> Seq<char> {
    seq!['e', 'x', 'p', 'e', 'r', 't']
}

pub open spec fn jb_id() -> Seq<char> {
    seq!['j', 'b']
}

pub open spec fn uwu_id() -> Seq<char> {
    seq!['u', 'w', 'u']
}

/// Which required snippet was not among the loaded prompts.
#[derive(Debug, Clone, Copy, PartialEq, Eq)]
pub enum MissingSnippet {
    Expert,
    Jb,
    Uwu,
}

/// The result of templating a message that had all its snippets.
#[derive(Debug, Clone, PartialEq)]
pub enum Templated {
    /// The text to send as the user's turn.
    Ready(String),
    /// The message uses `!uwu` but its last word quotes no name.
    NameMissing,
}

/// The mention token `<@bot_id>`.
pub fn mention_token_exec(bot_id: u64) -> (r: Vec<char>)
    ensures
        r@ == mention_token(bot_id),
{
    let mut r: Vec<char> = vec!['<', '@'];
    let digits = decimal_exec(bot_id);
    let mut k: usize = 0;
    while k < digits.len()
        invariant
            k <= digits.len(),
            r@ == seq!['<', '@'] + digits@.subrange(0, k as int),
        decreases digits.len() - k,
    {
        r.push(digits[k]);
        k += 1;
        assert(r@ =~= seq!['<', '@'] + digits@.subrange(0, k as int));
    }
    r.push('>');
    assert(digits@.subrange(0, k as int) =~= digits@);
    assert(r@ =~= mention_token(bot_id));
    r
}

/// The `uwu` snippet filled in with `name`.
pub fn uwu_expansion(snippet: &str, name: &str) -> (r: String)
    ensures
        r@ == uwu_text(snippet@, name@),
{
    let common: Vec<char> = vec!['{', 'N', 'A', 'M', 'E', '}'];
    let first: Vec<char> = vec!['{', 'F', 'I', 'R', 'S', 'T', '_', 'N', 'A', 'M', 'E', '}'];
    let full: Vec<char> = vec!['{', 'F', 'U', 'L', 'L', '_', 'N', 'A', 'M', 'E', '}'];
    let last: Vec<char> = vec!['{', 'L', 'A', 'S', 'T', '_', 'N', 'A', 'M', 'E', '}'];
    let a = replace_all(&chars_of(snippet), &first, &common);
    let b = replace_all(&a, &full, &common);
    let c = replace_all(&b, &last, &common);
    let d = replace_all(&c, &common, &chars_of(name));
    string_of(&d)
}

/// The name quoted in the last word of `text`, with its quote characters removed.
pub fn quoted_name_exec(text: &Vec<char>) -> (r: Option<Vec<char>>)
    ensures
        r matches Some(n) ==> quoted_name(text@) == Some(n@),
        r is None ==> quoted_name(text@) is None,
{
    let w = last_word_exec(text);
    let q: Vec<char> = vec!['"'];
    let empty: Vec<char> = Vec::new();
    assert(q@ =~= quote());
    assert(empty@ =~= Seq::<char>::empty());
    if occurs(&w, &q) {
        Some(replace_all(&w, &q, &empty))
    } else {
        None
    }
}

/// Rewrites a user's message with the given snippets; `None` when the message
/// uses `!uwu` without a quoted name.
pub fn apply_templates(content: &str, bot_id: u64, expert: &str, jb: &str, uwu: &str) -> (r:
    Option<String>)
    ensures
        r matches Some(t) ==> templated(content@, bot_id, expert@, jb@, uwu@) == Some(t@),
        r is None ==> templated(content@, bot_id, expert@, jb@, uwu@) is None,
{
    let empty: Vec<char> = Vec::new();
    let t = replace_all(&chars_of(content), &mention_token_exec(bot_id), &empty);
    let t = replace_all(&t, &vec![',', ' '], &empty);
    let t = replace_all(&t, &vec!['!', 'e', 'x', 'p', 'e', 'r', 't'], &chars_of(expert));
    let t = replace_all(&t, &vec!['!', 'j', 'b'], &chars_of(jb));
    let uwu_token: Vec<char> = vec!['!', 'u', 'w', 'u'];
    if occurs(&t, &uwu_token) {
        match quoted_name_exec(&t) {
            Some(name) => {
                let filled = uwu_expansion(uwu, &string_of(&name));
                let t = replace_all(&t, &uwu_token, &chars_of(&filled));
                Some(string_of(&t))
            },
            None => None,
        }
    } else {
        Some(string_of(&t))
    }
}

/// The text of the first prompt named `id`.
pub fn find_snippet(prompts: &Vec<PromptDocument>, id: &Vec<char>) -> (r: Option<String>)
    ensures
        r matches Some(t) ==> snippet_of(prompts@, id@) == Some(t@),
        r is None ==> snippet_of(prompts@, id@) is None,
{
    let mut k: usize = 0;
    assert(prompts@.subrange(0, prompts@.len() as int) =~= prompts@);
    while k < prompts.len()
        invariant
            k <= prompts.len(),
            snippet_of(prompts@.subrange(k as int, prompts@.len() as int), id@) == snippet_of(
                prompts@,
                id@,
            ),
        decreases prompts.len() - k,
    {
        let name = chars_of(prompts[k].prompt_id.as_str());
        assert(name@.subrange(0, name@.len() as int) =~= name@);
        assert(prompts@.subrange(k as int, prompts@.len() as int).drop_first() =~= prompts@.subrange(
            k + 1,
            prompts@.len() as int,
        ));
        if name.len() == id.len() && matches_at_exec(&name, id, 0) {
            assert(name@ =~= id@);
            return Some(prompts[k].prompt.clone());
        }
        assert(name@ != id@);
        k += 1;
    }
    None
}

/// What templating a message gives: the first missing snippet of `expert`,
/// `jb`, `uwu` (looked for in that order), or else the rewritten text
/// (`None` when a name must be asked for).
pub open spec fn template_outcome(
    content: Seq<char>,
    bot_id: u64,
    prompts: Seq<PromptDocument>,
) -> Result<Option<Seq<char>>, MissingSnippet> {
    if snippet_of(prompts, expert_id()) is None {
        Err(MissingSnippet::Expert)
    } else if snippet_of(prompts, jb_id()) is None {
        Err(MissingSnippet::Jb)
    } else if snippet_of(prompts, uwu_id()) is None {
        Err(MissingSnippet::Uwu)
    } else {
        Ok(
            templated(
                content,
                bot_id,
                snippet_of(prompts, expert_id())->0,
                snippet_of(prompts, jb_id())->0,
                snippet_of(prompts, uwu_id())->0,
            ),
        )
    }
}

/// Whether an executable templating result is the given outcome.
pub open spec fn is_outcome(r: Result<Templated, MissingSnippet>, o: Result<Option<Seq<char>>, MissingSnippet>) -> bool {
    match r {
        Err(e) => o == Err::<Option<Seq<char>>, MissingSnippet>(e),
        Ok(Templated::Ready(t)) => o == Ok::<Option<Seq<char>>, MissingSnippet>(Some(t@)),
        Ok(Templated::NameMissing) => o == Ok::<Option<Seq<char>>, MissingSnippet>(None),
    }
}

/// Rewrites a user's message with the snippets named `expert`, `jb` and `uwu`
/// among `prompts`.
pub fn template_message(content: &str, bot_id: u64, prompts: &Vec<PromptDocument>) -> (r: Result<
    Templated,
    MissingSnippet,
>)
    ensures
        is_outcome(r, template_outcome(content@, bot_id, prompts@)),
{
    let expert = match find_snippet(prompts, &vec!['e', 'x', 'p', 'e', 'r', 't']) {
        Some(s) => s,
        None => return Err(MissingSnippet::Expert),
    };
    let jb = match find_snippet(prompts, &vec!['j', 'b']) {
        Some(s) => s,
        None => return Err(MissingSnippet::Jb),
    };
    let uwu = match find_snippet(prompts, &vec!['u', 'w', 'u']) {
        Some(s) => s,
        None => return Err(MissingSnippet::Uwu),
    };
    match apply_templates(content, bot_id, expert.as_str(), jb.as_str(), uwu.as_str()) {
        Some(t) => Ok(Templated::Ready(t)),
        None => Ok(Templated::NameMissing),
    }
}

/// A message in which the bot's mention token does not occur, and in which no
/// macro occurs once every `", "` is removed, is only stripped of its `", "`
/// pairs.
pub proof fn lemma_plain_text(
    content: Seq<char>,
    bot_id: u64,
    expert: Seq<char>,
    jb: Seq<char>,
    uwu: Seq<char>,
)
    requires
        !occurs_in(content, mention_token(bot_id)),
        !occurs_in(replaced(content, comma_space(), Seq::empty()), expert_macro()),
        !occurs_in(replaced(content, comma_space(), Seq::empty()), jb_macro()),
        !occurs_in(replaced(content, comma_space(), Seq::empty()), uwu_macro()),
    ensures
        templated(content, bot_id, expert, jb, uwu) == Some(
            replaced(content, comma_space(), Seq::empty()),
        ),
{
    let t = replaced(content, comma_space(), Seq::empty());
    lemma_replaced_absent(content, mention_token(bot_id), Seq::empty());
    lemma_replaced_absent(t, expert_macro(), expert);
    lemma_replaced_absent(t, jb_macro(), jb);
}

} // verus!
