//! The orchestrator: the state machine that leads a question through the
//! decision, the tool and the summary, or through direct generation, to the
//! streamed answer. It decides and builds the requests; its caller performs
//! them and reports what came back.

use vstd::prelude::*;
use vstd::string::*;
use crate::decision::{parse_decision, verdict, Decision, DecisionError, DecisionView};
use crate::json::{encode, json_field, json_object};
use crate::template::{
    decision_prompt,
    generation_prompt,
    render_decision,
    render_generation,
    render_summary,
    summary_prompt,
};
use crate::tools::{
    built,
    copy_texts,
    described,
    found,
    parse_functions,
    unknown,
    ToolCatalog,
    ToolView,
};

verus! {

/// Why a request ended without an answer.
#[derive(Clone, Copy, Debug, PartialEq, Eq, Structural)]
pub enum Failure {
    /// A prompt template did not render.
    Template,
    /// The backend's verdict broke the decision contract.
    Decision(DecisionError),
    /// The backend could not be reached, or the connection broke.
    Transport,
    /// The tool failed, or its input could not be built.
    Tool,
}

/// Where a request stands.
#[derive(Clone, Debug, PartialEq, Eq)]
pub enum State {
    /// No question yet.
    Init,
    /// The backend is asked which tool the question needs.
    Deciding { question: String },
    /// The chosen tool runs.
    Invoking { question: String, tool: String },
    /// The tool's answer is about to be summed up.
    Summarizing { question: String, answer: String },
    /// The question is about to be answered directly.
    Generating { question: String },
    /// The answer streams; `delivered` tells whether a fragment was handed on.
    Streaming { delivered: bool },
    /// The stream ended and the answer is complete.
    Done,
    /// The request failed.
    Errored { failure: Failure },
}

/// What the caller reports.
#[derive(Clone, Debug, PartialEq, Eq)]
pub enum Event {
    /// A question arrived.
    Question(String),
    /// Nothing happened outside: the machine goes on by itself.
    Resume,
    /// The backend's single completion arrived.
    Completion(String),
    /// The tool returned this text.
    ToolOutput(String),
    /// The tool failed, with this message.
    ToolFailure(String),
    /// The backend streamed this fragment.
    Fragment(String),
    /// The stream is exhausted.
    EndOfStream,
    /// The backend could not be reached or the stream broke, with this message.
    TransportFailure(String),
}

/// What the caller has to do next.
#[derive(Clone, Debug, PartialEq, Eq)]
pub enum Action {
    /// Nothing outside: report `Resume`.
    Continue,
    /// Ask the backend for the single completion of `prompt`, and report it.
    Complete { model: String, prompt: String },
    /// Run the tool `name` on `input`, a JSON text, and report what it returns.
    RunTool { name: String, input: String },
    /// Ask the backend to stream the completion of `prompt`, and report each fragment.
    StreamComplete { model: String, prompt: String },
    /// Hand this fragment to the user now.
    Emit(String),
    /// The answer is complete.
    Finish,
    /// Tell the user of the failure; `partial` tells whether fragments of
    /// the answer went out before it.
    Fail { failure: Failure, detail: String, partial: bool },
    /// The event has no meaning in this state: nothing changed.
    Ignore,
}

/// The mathematical counterpart of [`State`].
pub ghost enum StateView {
    Init,
    Deciding { question: Seq<char> },
    Invoking { question: Seq<char>, tool: Seq<char> },
    Summarizing { question: Seq<char>, answer: Seq<char> },
    Generating { question: Seq<char> },
    Streaming { delivered: bool },
    Done,
    Errored { failure: Failure },
}

/// The mathematical counterpart of [`Event`].
pub ghost enum EventView {
    Question(Seq<char>),
    Resume,
    Completion(Seq<char>),
    ToolOutput(Seq<char>),
    ToolFailure(Seq<char>),
    Fragment(Seq<char>),
    EndOfStream,
    TransportFailure(Seq<char>),
}

/// The mathematical counterpart of [`Action`].
pub ghost enum ActionView {
    Continue,
    Complete { model: Seq<char>, prompt: Seq<char> },
    RunTool { name: Seq<char>, input: Seq<char> },
    StreamComplete { model: Seq<char>, prompt: Seq<char> },
    Emit(Seq<char>),
    Finish,
    Fail { failure: Failure, detail: Seq<char>, partial: bool },
    Ignore,
}

impl View for State {
    type V = StateView;

    open spec fn view(&self) -> StateView {
        match self {
            State::Init => StateView::Init,
            State::Deciding { question } => StateView::Deciding { question: question@ },
            State::Invoking { question, tool } => StateView::Invoking {
                question: question@,
                tool: tool@,
            },
            State::Summarizing { question, answer } => StateView::Summarizing {
                question: question@,
                answer: answer@,
            },
            State::Generating { question } => StateView::Generating { question: question@ },
            State::Streaming { delivered } => StateView::Streaming { delivered: *delivered },
            State::Done => StateView::Done,
            State::Errored { failure } => StateView::Errored { failure: *failure },
        }
    }
}

impl View for Event {
    type V = EventView;

    open spec fn view(&self) -> EventView {
        match self {
            Event::Question(text) => EventView::Question(text@),
            Event::Resume => EventView::Resume,
            Event::Completion(text) => EventView::Completion(text@),
            Event::ToolOutput(text) => EventView::ToolOutput(text@),
            Event::ToolFailure(text) => EventView::ToolFailure(text@),
            Event::Fragment(text) => EventView::Fragment(text@),
            Event::EndOfStream => EventView::EndOfStream,
            Event::TransportFailure(text) => EventView::TransportFailure(text@),
        }
    }
}

impl View for Action {
    type V = ActionView;

    open spec fn view(&self) -> ActionView {
        match self {
            Action::Continue => ActionView::Continue,
            Action::Complete { model, prompt } => ActionView::Complete {
                model: model@,
                prompt: prompt@,
            },
            Action::RunTool { name, input } => ActionView::RunTool { name: name@, input: input@ },
            Action::StreamComplete { model, prompt } => ActionView::StreamComplete {
                model: model@,
                prompt: prompt@,
            },
            Action::Emit(text) => ActionView::Emit(text@),
            Action::Finish => ActionView::Finish,
            Action::Fail { failure, detail, partial } => ActionView::Fail {
                failure: *failure,
                detail: detail@,
                partial: *partial,
            },
            Action::Ignore => ActionView::Ignore,
        }
    }
}

/// What an orchestrator is made of.
pub ghost struct SharkView {
    /// The backend's model.
    pub model: Seq<char>,
    /// The tools.
    pub catalog: Seq<ToolView>,
    /// Whether a failed decision or tool leads to direct generation.
    pub fallback: bool,
}

/// The failure of the decision phase or of the tool: with the fallback, the
/// question is answered directly and the failure is dropped; without it, the
/// request fails.
pub open spec fn recovered(
    shark: SharkView,
    question: Seq<char>,
    failure: Failure,
    detail: Seq<char>,
) -> (StateView, ActionView) {
    if shark.fallback {
        (StateView::Generating { question }, ActionView::Continue)
    } else {
        (StateView::Errored { failure }, ActionView::Fail { failure, detail, partial: false })
    }
}

/// The request of the decision phase, given the prompt if it rendered.
pub open spec fn decision_request(shark: SharkView, question: Seq<char>, prompt: Option<Seq<char>>) -> (
    StateView,
    ActionView,
) {
    match prompt {
        Some(prompt) => (
            StateView::Deciding { question },
            ActionView::Complete { model: shark.model, prompt },
        ),
        None => recovered(shark, question, Failure::Template, Seq::empty()),
    }
}

/// What follows the decision.
pub open spec fn decided(
    shark: SharkView,
    question: Seq<char>,
    outcome: Result<DecisionView, DecisionError>,
) -> (StateView, ActionView) {
    match outcome {
        Ok(DecisionView::UseTool(tool)) => (
            StateView::Invoking { question, tool },
            ActionView::Continue,
        ),
        Ok(DecisionView::NoTool) => (StateView::Generating { question }, ActionView::Continue),
        Err(e) => recovered(shark, question, Failure::Decision(e), Seq::empty()),
    }
}

/// The members of the input that a tool gets: the question under
/// `question`, and again under the name of each parameter that the tool's
/// schema requires. To find its arguments in the question is the tool's part.
pub open spec fn tool_input_members(required: Seq<Seq<char>>, question: Seq<char>) -> Seq<
    (Seq<char>, Seq<char>),
> {
    seq![("question"@, question)] + Seq::new(required.len(), |i: int| (required[i], question))
}

/// The input that a tool of the catalog gets, if the catalog holds the tool
/// and the input could be written.
pub open spec fn tool_input(catalog: Seq<ToolView>, tool: Seq<char>, question: Seq<char>) -> Option<
    Seq<char>,
> {
    match found(catalog, tool) {
        Some(descriptor) => json_object(tool_input_members(descriptor.required, question)),
        None => None,
    }
}

/// The request to run the tool, given its input if there is one.
pub open spec fn tool_request(
    shark: SharkView,
    question: Seq<char>,
    tool: Seq<char>,
    input: Option<Seq<char>>,
) -> (StateView, ActionView) {
    match input {
        Some(input) => (
            StateView::Invoking { question, tool },
            ActionView::RunTool { name: tool, input },
        ),
        None => recovered(shark, question, Failure::Tool, Seq::empty()),
    }
}

/// The request of the streaming phase, given the final prompt if it rendered.
pub open spec fn stream_request(shark: SharkView, prompt: Option<Seq<char>>) -> (
    StateView,
    ActionView,
) {
    match prompt {
        Some(prompt) => (
            StateView::Streaming { delivered: false },
            ActionView::StreamComplete { model: shark.model, prompt },
        ),
        None => (
            StateView::Errored { failure: Failure::Template },
            ActionView::Fail { failure: Failure::Template, detail: Seq::empty(), partial: false },
        ),
    }
}

/// The transition of the machine: the state after `event`, and what the
/// caller has to do.
pub open spec fn next(shark: SharkView, state: StateView, event: EventView) -> (
    StateView,
    ActionView,
) {
    match state {
        StateView::Init => match event {
            EventView::Question(question) => (
                StateView::Deciding { question },
                ActionView::Continue,
            ),
            _ => (state, ActionView::Ignore),
        },
        StateView::Deciding { question } => match event {
            EventView::Resume => decision_request(
                shark,
                question,
                decision_prompt(question, described(shark.catalog)),
            ),
            EventView::Completion(text) => decided(
                shark,
                question,
                verdict(json_field(text, "function"@), shark.catalog),
            ),
            EventView::TransportFailure(detail) => recovered(
                shark,
                question,
                Failure::Transport,
                detail,
            ),
            _ => (state, ActionView::Ignore),
        },
        StateView::Invoking { question, tool } => match event {
            EventView::Resume => tool_request(
                shark,
                question,
                tool,
                tool_input(shark.catalog, tool, question),
            ),
            EventView::ToolOutput(answer) => (
                StateView::Summarizing { question, answer },
                ActionView::Continue,
            ),
            EventView::ToolFailure(detail) => recovered(shark, question, Failure::Tool, detail),
            _ => (state, ActionView::Ignore),
        },
        StateView::Summarizing { question, answer } => match event {
            EventView::Resume => stream_request(shark, summary_prompt(question, answer)),
            _ => (state, ActionView::Ignore),
        },
        StateView::Generating { question } => match event {
            EventView::Resume => stream_request(shark, generation_prompt(question)),
            _ => (state, ActionView::Ignore),
        },
        StateView::Streaming { delivered } => match event {
            EventView::Fragment(text) => (
                StateView::Streaming { delivered: true },
                ActionView::Emit(text),
            ),
            EventView::EndOfStream => (StateView::Done, ActionView::Finish),
            EventView::TransportFailure(detail) => (
                StateView::Errored { failure: Failure::Transport },
                ActionView::Fail { failure: Failure::Transport, detail, partial: delivered },
            ),
            _ => (state, ActionView::Ignore),
        },
        StateView::Done => (state, ActionView::Ignore),
        StateView::Errored { failure } => (state, ActionView::Ignore),
    }
}

/// Whether `r` is the pair `expected`, up to the views.
pub open spec fn is_step(r: (State, Action), expected: (StateView, ActionView)) -> bool {
    r.0@ == expected.0 && r.1@ == expected.1
}

/// The orchestrator: a model, a catalog of tools and the policy on failures.
#[derive(Debug)]
pub struct Shark {
    model: String,
    functions: ToolCatalog,
    fallback: bool,
    unknown: Vec<String>,
}

impl View for Shark {
    type V = SharkView;

    closed spec fn view(&self) -> SharkView {
        SharkView { model: self.model@, catalog: self.functions@, fallback: self.fallback }
    }
}

impl Shark {
    /// The requested names that no capability answers to.
    pub closed spec fn rejected(&self) -> Seq<Seq<char>> {
        self.unknown.deep_view()
    }

    /// An orchestrator for `model` with the tools that `functions` names. A
    /// name that no capability answers to is left out. A failed decision or
    /// tool leads to direct generation.
    pub fn new(model: &str, functions: Vec<String>) -> (r: Shark)
        ensures
            r@ == (SharkView {
                model: model@,
                catalog: built(functions.deep_view()),
                fallback: true,
            }),
            r.rejected() == unknown(functions.deep_view()),
    {
        let (catalog, unknown) = parse_functions(&functions);
        Shark { model: String::from_str(model), functions: catalog, fallback: true, unknown }
    }

    /// An orchestrator for `model` with the tools of `catalog` and the given
    /// policy on failures.
    pub fn with_catalog(model: &str, catalog: ToolCatalog, fallback: bool) -> (r: Shark)
        ensures
            r@ == (SharkView { model: model@, catalog: catalog@, fallback }),
            r.rejected() == Seq::<Seq<char>>::empty(),
    {
        let r = Shark {
            model: String::from_str(model),
            functions: catalog,
            fallback,
            unknown: Vec::new(),
        };
        assert(r.rejected() =~= Seq::<Seq<char>>::empty());
        r
    }

    /// The backend's model.
    pub fn model(&self) -> (r: &str)
        ensures
            r@ == self@.model,
    {
        self.model.as_str()
    }

    /// The tools.
    pub fn catalog(&self) -> (r: &ToolCatalog)
        ensures
            r@ == self@.catalog,
    {
        &self.functions
    }

    /// Whether a failed decision or tool leads to direct generation.
    pub fn fallback(&self) -> (r: bool)
        ensures
            r == self@.fallback,
    {
        self.fallback
    }

    /// The requested names that were left out of the catalog, normalised.
    pub fn unknown_tools(&self) -> (r: &Vec<String>)
        ensures
            r.deep_view() == self.rejected(),
    {
        &self.unknown
    }

    /// Handles a failure of the decision phase or of the tool.
    pub fn recover(&self, question: String, failure: Failure, detail: String) -> (r: (
        State,
        Action,
    ))
        ensures
            is_step(r, recovered(self@, question@, failure, detail@)),
    {
        if self.fallback {
            (State::Generating { question }, Action::Continue)
        } else {
            (State::Errored { failure }, Action::Fail { failure, detail, partial: false })
        }
    }

    /// Builds the request of the decision phase from the rendered prompt.
    pub fn request_decision(&self, question: String, prompt: Option<String>) -> (r: (
        State,
        Action,
    ))
        ensures
            is_step(
                r,
                decision_request(
                    self@,
                    question@,
                    match prompt {
                        Some(text) => Some(text@),
                        None => None,
                    },
                ),
            ),
    {
        match prompt {
            Some(prompt) => (
                State::Deciding { question },
                Action::Complete { model: self.model.clone(), prompt },
            ),
            None => self.recover(question, Failure::Template, String::new()),
        }
    }

    /// Renders the decision prompt for the question and the catalog's tools,
    /// and asks the backend for its verdict.
    pub fn call_function(&self, question: String) -> (r: (State, Action))
        ensures
            is_step(r, next(self@, StateView::Deciding { question: question@ }, EventView::Resume)),
    {
        let tools = self.functions.descriptions();
        let prompt = render_decision(question.as_str(), tools.as_str());
        self.request_decision(question, prompt)
    }

    /// Goes on from the decision: to the tool, to direct generation, or to
    /// the handling of a broken contract.
    pub fn follow(&self, question: String, outcome: Result<Decision, DecisionError>) -> (r: (
        State,
        Action,
    ))
        ensures
            is_step(
                r,
                decided(
                    self@,
                    question@,
                    match outcome {
                        Ok(decision) => Ok(decision@),
                        Err(e) => Err(e),
                    },
                ),
            ),
    {
        match outcome {
            Ok(Decision::UseTool(tool)) => (State::Invoking { question, tool }, Action::Continue),
            Ok(Decision::NoTool) => (State::Generating { question }, Action::Continue),
            Err(e) => self.recover(question, Failure::Decision(e), String::new()),
        }
    }

    /// Builds the request to run the tool from its input.
    pub fn request_tool(&self, question: String, tool: String, input: Option<String>) -> (r: (
        State,
        Action,
    ))
        ensures
            is_step(
                r,
                tool_request(
                    self@,
                    question@,
                    tool@,
                    match input {
                        Some(text) => Some(text@),
                        None => None,
                    },
                ),
            ),
    {
        match input {
            Some(input) => {
                let name = tool.clone();
                (State::Invoking { question, tool }, Action::RunTool { name, input })
            },
            None => self.recover(question, Failure::Tool, String::new()),
        }
    }

    /// Writes the input of a tool of the catalog: a JSON object that holds
    /// the question under `question` and under each required parameter. There
    /// is none for a tool that the catalog does not hold.
    pub fn write_input(&self, tool: &str, question: &str) -> (r: Option<String>)
        ensures
            match r {
                Some(text) => tool_input(self@.catalog, tool@, question@) == Some(text@),
                None => tool_input(self@.catalog, tool@, question@) is None,
            },
    {
        match self.functions.get(tool) {
            Some(descriptor) => {
                let required = copy_texts(&descriptor.required);
                let ghost names = required.deep_view();
                let mut members: Vec<(String, String)> = Vec::new();
                members.push((String::from_str("question"), String::from_str(question)));
                let n: usize = required.len();
                let mut i: usize = 0;
                assert(members.deep_view() =~= tool_input_members(names.take(0), question@));
                while i < n
                    invariant
                        n == required@.len(),
                        names == required.deep_view(),
                        i <= n,
                        members.deep_view() == tool_input_members(names.take(i as int), question@),
                    decreases n - i,
                {
                    let ghost before = members.deep_view();
                    members.push((required[i].clone(), String::from_str(question)));
                    assert(members.deep_view() =~= before.push((names[i as int], question@)));
                    assert(members.deep_view() =~= tool_input_members(
                        names.take(i + 1),
                        question@,
                    ));
                    i = i + 1;
                }
                assert(names.take(n as int) =~= names);
                encode(&members)
            },
            None => None,
        }
    }

    /// Writes the tool's input and asks for the tool to be run on it.
    pub fn invoke(&self, question: String, tool: String) -> (r: (State, Action))
        ensures
            is_step(
                r,
                next(
                    self@,
                    StateView::Invoking { question: question@, tool: tool@ },
                    EventView::Resume,
                ),
            ),
    {
        let input = self.write_input(tool.as_str(), question.as_str());
        self.request_tool(question, tool, input)
    }

    /// Builds the request of the streaming phase from the final prompt.
    pub fn request_stream(&self, prompt: Option<String>) -> (r: (State, Action))
        ensures
            is_step(
                r,
                stream_request(
                    self@,
                    match prompt {
                        Some(text) => Some(text@),
                        None => None,
                    },
                ),
            ),
    {
        match prompt {
            Some(prompt) => (
                State::Streaming { delivered: false },
                Action::StreamComplete { model: self.model.clone(), prompt },
            ),
            None => (
                State::Errored { failure: Failure::Template },
                Action::Fail { failure: Failure::Template, detail: String::new(), partial: false },
            ),
        }
    }

    /// Renders the summary prompt from the question and the tool's answer,
    /// and asks the backend to stream its completion.
    pub fn summarize_stream(&self, question: String, answer: String) -> (r: (State, Action))
        ensures
            is_step(
                r,
                next(
                    self@,
                    StateView::Summarizing { question: question@, answer: answer@ },
                    EventView::Resume,
                ),
            ),
    {
        self.request_stream(render_summary(question.as_str(), answer.as_str()))
    }

    /// Renders the generation prompt from the question, and asks the backend
    /// to stream its completion.
    pub fn generate(&self, question: String) -> (r: (State, Action))
        ensures
            is_step(
                r,
                next(self@, StateView::Generating { question: question@ }, EventView::Resume),
            ),
    {
        self.request_stream(render_generation(question.as_str()))
    }

    /// Takes up a question: the machine enters the decision phase and asks
    /// the backend for its verdict.
    pub fn generate_stream(&self, question: String) -> (r: (State, Action))
        ensures
            is_step(
                r,
                next(
                    self@,
                    next(self@, StateView::Init, EventView::Question(question@)).0,
                    EventView::Resume,
                ),
            ),
    {
        self.call_function(question)
    }

    /// One transition of the machine.
    pub fn step(&self, state: State, event: Event) -> (r: (State, Action))
        ensures
            is_step(r, next(self@, state@, event@)),
    {
        match state {
            State::Init => match event {
                Event::Question(question) => (State::Deciding { question }, Action::Continue),
                _ => (State::Init, Action::Ignore),
            },
            State::Deciding { question } => match event {
                Event::Resume => self.call_function(question),
                Event::Completion(text) => {
                    let outcome = parse_decision(text.as_str(), &self.functions);
                    self.follow(question, outcome)
                },
                Event::TransportFailure(detail) => self.recover(
                    question,
                    Failure::Transport,
                    detail,
                ),
                _ => (State::Deciding { question }, Action::Ignore),
            },
            State::Invoking { question, tool } => match event {
                Event::Resume => self.invoke(question, tool),
                Event::ToolOutput(answer) => (
                    State::Summarizing { question, answer },
                    Action::Continue,
                ),
                Event::ToolFailure(detail) => self.recover(question, Failure::Tool, detail),
                _ => (State::Invoking { question, tool }, Action::Ignore),
            },
            State::Summarizing { question, answer } => match event {
                Event::Resume => self.summarize_stream(question, answer),
                _ => (State::Summarizing { question, answer }, Action::Ignore),
            },
            State::Generating { question } => match event {
                Event::Resume => self.generate(question),
                _ => (State::Generating { question }, Action::Ignore),
            },
            State::Streaming { delivered } => match event {
                Event::Fragment(text) => (State::Streaming { delivered: true }, Action::Emit(text)),
                Event::EndOfStream => (State::Done, Action::Finish),
                Event::TransportFailure(detail) => (
                    State::Errored { failure: Failure::Transport },
                    Action::Fail { failure: Failure::Transport, detail, partial: delivered },
                ),
                _ => (State::Streaming { delivered }, Action::Ignore),
            },
            State::Done => (State::Done, Action::Ignore),
            State::Errored { failure } => (State::Errored { failure }, Action::Ignore),
        }
    }
}

} // verus!
