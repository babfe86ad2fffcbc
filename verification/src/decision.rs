//! The decision phase: from the backend's JSON verdict to the tool that runs, if any.

use vstd::prelude::*;
use vstd::string::*;
use crate::json::{json_field, lookup, Field, FieldView};
use crate::text::{normalize, normalized, same_text, strip, unquoted, Strip};
use crate::tools::{holds, ToolCatalog, ToolView};

verus! {

/// Whether a tool runs before the answer, and which.
#[derive(Clone, Debug, PartialEq, Eq)]
pub enum Decision {
    /// The question is answered directly.
    NoTool,
    /// The tool of this name, as the catalog holds it, runs first.
    UseTool(String),
}

/// The mathematical counterpart of [`Decision`].
pub ghost enum DecisionView {
    NoTool,
    UseTool(Seq<char>),
}

impl View for Decision {
    type V = DecisionView;

    open spec fn view(&self) -> DecisionView {
        match self {
            Decision::NoTool => DecisionView::NoTool,
            Decision::UseTool(name) => DecisionView::UseTool(name@),
        }
    }
}

/// How the backend's verdict breaks the contract `{"function": <string> | null}`.
#[derive(Clone, Copy, Debug, PartialEq, Eq, Structural)]
pub enum DecisionError {
    /// The verdict is not one JSON value.
    NotJson,
    /// The verdict is a JSON value, but no object.
    NotObject,
    /// The member `function` is neither a string nor `null`.
    NotText,
}

/// Whether a normalised name is the word `null`, with or without quotes round it.
pub open spec fn names_nothing(name: Seq<char>) -> bool {
    unquoted(name) == "null"@
}

/// The decision for a normalised name: the tool of that name where the
/// catalog holds one, and no tool for the word `null` or an unlisted name.
pub open spec fn choice(name: Seq<char>, catalog: Seq<ToolView>) -> DecisionView {
    if names_nothing(name) || !holds(catalog, name) {
        DecisionView::NoTool
    } else {
        DecisionView::UseTool(name)
    }
}

/// The decision for what the verdict holds under `function`.
pub open spec fn verdict(field: FieldView, catalog: Seq<ToolView>) -> Result<
    DecisionView,
    DecisionError,
> {
    match field {
        FieldView::Malformed => Err(DecisionError::NotJson),
        FieldView::NotObject => Err(DecisionError::NotObject),
        FieldView::Other => Err(DecisionError::NotText),
        FieldView::Absent => Ok(DecisionView::NoTool),
        FieldView::Null => Ok(DecisionView::NoTool),
        FieldView::Text(name) => Ok(choice(normalized(name), catalog)),
    }
}

/// Whether `r` is the outcome `expected`, up to the view of the decision.
pub open spec fn is_verdict(
    r: Result<Decision, DecisionError>,
    expected: Result<DecisionView, DecisionError>,
) -> bool {
    match r {
        Ok(decision) => expected == Ok::<DecisionView, DecisionError>(decision@),
        Err(e) => expected == Err::<DecisionView, DecisionError>(e),
    }
}

/// Decides for a name that is already normalised.
pub fn select(name: &str, catalog: &ToolCatalog) -> (r: Decision)
    ensures
        r@ == choice(name@, catalog@),
{
    if same_text(strip(name, Strip::Quotes), "null") {
        Decision::NoTool
    } else if catalog.contains(name) {
        Decision::UseTool(String::from_str(name))
    } else {
        Decision::NoTool
    }
}

/// Decides for what the verdict holds under `function`: no tool where the
/// member is missing or `null`, the choice for a string, and an error for
/// anything else.
pub fn decide(field: Field, catalog: &ToolCatalog) -> (r: Result<Decision, DecisionError>)
    ensures
        is_verdict(r, verdict(field@, catalog@)),
{
    match field {
        Field::Malformed => Err(DecisionError::NotJson),
        Field::NotObject => Err(DecisionError::NotObject),
        Field::Other => Err(DecisionError::NotText),
        Field::Absent => Ok(Decision::NoTool),
        Field::Null => Ok(Decision::NoTool),
        Field::Text(name) => {
            let key = normalize(name.as_str());
            Ok(select(key.as_str(), catalog))
        },
    }
}

/// Reads the backend's verdict, a JSON text, and decides.
pub fn parse_decision(text: &str, catalog: &ToolCatalog) -> (r: Result<Decision, DecisionError>)
    ensures
        is_verdict(r, verdict(json_field(text@, "function"@), catalog@)),
{
    decide(lookup(text, "function"), catalog)
}

/// A verdict whose `function` is missing, `null`, or a string that reads
/// `null` once it is trimmed, lower-cased and freed of surrounding quotes,
/// decides for no tool, whatever the catalog holds.
pub proof fn lemma_null_decides_no_tool(field: FieldView, catalog: Seq<ToolView>)
    requires
        field is Absent || field is Null || (field is Text && names_nothing(
            normalized(field->Text_0),
        )),
    ensures
        verdict(field, catalog) == Ok::<DecisionView, DecisionError>(DecisionView::NoTool),
{
}

/// A verdict that names a tool which the catalog does not hold decides for
/// no tool: it is never an error.
pub proof fn lemma_unlisted_decides_no_tool(name: Seq<char>, catalog: Seq<ToolView>)
    requires
        !holds(catalog, normalized(name)),
    ensures
        verdict(FieldView::Text(name), catalog) == Ok::<DecisionView, DecisionError>(
            DecisionView::NoTool,
        ),
{
}

/// A decision for a tool names a tool of the catalog; with an empty catalog
/// no verdict decides for a tool.
pub proof fn lemma_chosen_tool_is_listed(field: FieldView, catalog: Seq<ToolView>)
    ensures
        verdict(field, catalog) matches Ok(DecisionView::UseTool(name)) ==> holds(catalog, name),
        catalog.len() == 0 ==> !(verdict(field, catalog) matches Ok(DecisionView::UseTool(_))),
{
}

} // verus!
