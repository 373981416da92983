//! Prompts sent to the language model and the reading of its answers.
use vstd::prelude::*;
use crate::text::{
    before_first, lemma_before_first_has_no_sep, lemma_trimmed_idempotent, lemma_trimmed_shape,
    text_before, trim, trimmed,
};

verus! {

/// Model that answers the prompts.
pub open spec fn model_name() -> Seq<char> {
    "gpt-4o"@
}

/// Token budget for a summary.
pub const SUMMARY_MAX_TOKENS: u64 = 4096;

/// Token budget for categories.
pub const CATEGORY_MAX_TOKENS: u64 = 100;

/// The prompt that asks for a summary of `content`.
pub open spec fn summary_prompt_text(content: Seq<char>) -> Seq<char> {
    "Provide a concise summary of the following article that can be read and understood in 2 minutes, focusing on the main points and essential details: "@
        + content
}

/// The prompt that asks for categories of `content`.
pub open spec fn categories_prompt_text(content: Seq<char>) -> Seq<char> {
    "Provide unique categories for the following article. Do not exceed two words per category. Separate categories with commas:\n: "@
        + content
}

/// The category read from an answer: the text before its first comma,
/// without surrounding whitespace.
pub open spec fn first_category_of(answer: Seq<char>) -> Seq<char> {
    trimmed(before_first(answer, ','))
}

/// The model name to ask.
pub fn model() -> (r: String)
    ensures
        r@ == model_name(),
{
    String::from_str("gpt-4o")
}

/// The prompt that asks for a summary of `content`.
pub fn summary_prompt(content: &str) -> (r: String)
    ensures
        r@ == summary_prompt_text(content@),
{
    let mut r = String::from_str(
        "Provide a concise summary of the following article that can be read and understood in 2 minutes, focusing on the main points and essential details: ",
    );
    r.append(content);
    r
}

/// The prompt that asks for categories of `content`.
pub fn categories_prompt(content: &str) -> (r: String)
    ensures
        r@ == categories_prompt_text(content@),
{
    let mut r = String::from_str(
        "Provide unique categories for the following article. Do not exceed two words per category. Separate categories with commas:\n: ",
    );
    r.append(content);
    r
}

/// The category kept from the model's answer.
///
/// The result holds no comma and has no whitespace at either end.
pub fn first_category(answer: &str) -> (r: String)
    ensures
        r@ == first_category_of(answer@),
        !r@.contains(','),
        trimmed(r@) == r@,
{
    let before = text_before(answer, ',');
    let r = trim(before.as_str());
    proof {
        lemma_category_shape(answer@);
    }
    r
}

/// A category read from an answer holds no comma and is already trimmed.
pub proof fn lemma_category_shape(answer: Seq<char>)
    ensures
        !first_category_of(answer).contains(','),
        trimmed(first_category_of(answer)) == first_category_of(answer),
{
    let b = before_first(answer, ',');
    lemma_before_first_has_no_sep(answer, ',');
    lemma_trimmed_shape(b);
    lemma_trimmed_idempotent(b);
}

/// The text of the first choice of a chat completion, empty when it has
/// none (`choices[0].message.content.unwrap_or_default()`).
pub fn completion_text(choices: &Vec<Option<String>>) -> (r: String)
    requires
        choices@.len() > 0,
    ensures
        choices@[0] matches Some(t) ==> r@ == t@,
        choices@[0] is None ==> r@ == Seq::<char>::empty(),
{
    match &choices[0] {
        Some(t) => t.clone(),
        None => String::new(),
    }
}

} // verus!
