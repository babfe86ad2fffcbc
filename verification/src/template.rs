//! The prompts: three templates and the renderer that fills them.

use vstd::prelude::*;
use vstd::string::*;

verus! {

/// The name of the template that asks which tool a question needs.
pub const DECISION: &'static str = "decision";

/// The name of the template that asks for a direct answer.
pub const GENERATION: &'static str = "generation";

/// The name of the template that asks for a summary of a tool's answer.
pub const SUMMARY: &'static str = "summary";

/// The template of the decision phase. Its variables are `question` and `tool_descriptions`.
pub const DECISION_TEMPLATE: &'static str =
    "\nYou are a helpful assistant called shark🦈, decide whether a tool is needed to answer the question given by user: {{question}}\nThe tools you can use, one per line:\n{{tool_descriptions}}\nJust response one JSON object: {\"function\": \"<name of the tool>\"} to use a tool, or {\"function\": null} if no tool is needed.\n";

/// The template of a direct answer. Its variable is `question`.
pub const GENERATION_TEMPLATE: &'static str =
    "\nYou are a helpful assistant called shark🦈, answer the question given by user: {{question}}\n";

/// The template of a summary. Its variables are `question` and `answer`.
pub const SUMMARY_TEMPLATE: &'static str =
    "\nYou are a helpful assistant called shark🦈, given user's question: {{question}} and the answer of the question: {{answer}}, try to give a short summary.\nJust response your summary content.\n";

/// The text that `minijinja` renders from the template `source`, loaded
/// under `name`, with each variable bound to its text; `None` where the
/// template is malformed or the rendering fails.
pub uninterp spec fn rendered(
    name: Seq<char>,
    source: Seq<char>,
    variables: Seq<(Seq<char>, Seq<char>)>,
) -> Option<Seq<char>>;

#[verifier::external_type_specification]
#[verifier::external_body]
pub struct ExTemplateError(minijinja::Error);

/// Renders with `minijinja::Environment::render_named_str`, in a fresh
/// default environment, with the variables as the context. The result is the
/// rendered text, or the error where the crate reports one.
#[verifier::external_body]
pub(crate) fn render(name: &str, source: &str, variables: &Vec<(String, String)>) -> (r: Result<
    String,
    minijinja::Error,
>)
    ensures
        match r {
            Ok(text) => rendered(name@, source@, variables.deep_view()) == Some(text@),
            Err(_) => rendered(name@, source@, variables.deep_view()) is None,
        },
{
    let context: std::collections::BTreeMap<&str, &str> = variables.iter().map(
        |pair| (pair.0.as_str(), pair.1.as_str()),
    ).collect();
    minijinja::Environment::new().render_named_str(name, source, context)
}

/// The variables of the decision template.
pub open spec fn decision_variables(question: Seq<char>, tools: Seq<char>) -> Seq<
    (Seq<char>, Seq<char>),
> {
    seq![("question"@, question), ("tool_descriptions"@, tools)]
}

/// The variables of the generation template.
pub open spec fn generation_variables(question: Seq<char>) -> Seq<(Seq<char>, Seq<char>)> {
    seq![("question"@, question)]
}

/// The variables of the summary template.
pub open spec fn summary_variables(question: Seq<char>, answer: Seq<char>) -> Seq<
    (Seq<char>, Seq<char>),
> {
    seq![("question"@, question), ("answer"@, answer)]
}

/// The prompt of the decision phase, if the template renders.
pub open spec fn decision_prompt(question: Seq<char>, tools: Seq<char>) -> Option<Seq<char>> {
    rendered(DECISION@, DECISION_TEMPLATE@, decision_variables(question, tools))
}

/// The prompt of a direct answer, if the template renders.
pub open spec fn generation_prompt(question: Seq<char>) -> Option<Seq<char>> {
    rendered(GENERATION@, GENERATION_TEMPLATE@, generation_variables(question))
}

/// The prompt of a summary, if the template renders.
pub open spec fn summary_prompt(question: Seq<char>, answer: Seq<char>) -> Option<Seq<char>> {
    rendered(SUMMARY@, SUMMARY_TEMPLATE@, summary_variables(question, answer))
}

/// Whether `r` holds the text `expected`, and fails where there is none.
pub open spec fn is_prompt(r: Option<String>, expected: Option<Seq<char>>) -> bool {
    match r {
        Some(text) => expected == Some(text@),
        None => expected is None,
    }
}

fn fill(name: &str, source: &str, variables: &Vec<(String, String)>) -> (r: Option<String>)
    ensures
        is_prompt(r, rendered(name@, source@, variables.deep_view())),
{
    match render(name, source, variables) {
        Ok(text) => Some(text),
        Err(_) => None,
    }
}

/// Renders the prompt that asks the backend which tool `question` needs,
/// given the tools' descriptions.
pub fn render_decision(question: &str, tools: &str) -> (r: Option<String>)
    ensures
        is_prompt(r, decision_prompt(question@, tools@)),
{
    let mut variables: Vec<(String, String)> = Vec::new();
    variables.push((String::from_str("question"), String::from_str(question)));
    variables.push((String::from_str("tool_descriptions"), String::from_str(tools)));
    assert(variables.deep_view() =~= decision_variables(question@, tools@));
    fill(DECISION, DECISION_TEMPLATE, &variables)
}

/// Renders the prompt that asks the backend to answer `question` directly.
pub fn render_generation(question: &str) -> (r: Option<String>)
    ensures
        is_prompt(r, generation_prompt(question@)),
{
    let mut variables: Vec<(String, String)> = Vec::new();
    variables.push((String::from_str("question"), String::from_str(question)));
    assert(variables.deep_view() =~= generation_variables(question@));
    fill(GENERATION, GENERATION_TEMPLATE, &variables)
}

/// Renders the prompt that asks the backend to sum up `answer`, a tool's
/// output, as the answer to `question`.
pub fn render_summary(question: &str, answer: &str) -> (r: Option<String>)
    ensures
        is_prompt(r, summary_prompt(question@, answer@)),
{
    let mut variables: Vec<(String, String)> = Vec::new();
    variables.push((String::from_str("question"), String::from_str(question)));
    variables.push((String::from_str("answer"), String::from_str(answer)));
    assert(variables.deep_view() =~= summary_variables(question@, answer@));
    fill(SUMMARY, SUMMARY_TEMPLATE, &variables)
}

} // verus!
