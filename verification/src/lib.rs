//! Decision-and-dispatch core of a question answering agent.
//!
//! Given a question, the orchestrator asks a text-generation backend whether a
//! tool has to run first, folds the tool's output into a second prompt, and
//! forwards the streamed answer fragment by fragment. The library decides and
//! builds every request; its caller talks to the backend and runs the tools.
//!
//! - [`text`]: trimming, lower-casing and unquoting of names.
//! - [`json`]: the JSON that is read from and written to the outside.
//! - [`tools`]: tool descriptors, the catalog and the registry of known tools.
//! - [`decision`]: the backend's verdict and the decision that it stands for.
//! - [`template`]: the prompt templates and their renderer.
//! - [`shark`]: the orchestrator's state machine.
//! - [`runs`]: what holds of the machine over whole sequences of events.
//! - [`color`]: the colour of the answer.

pub mod color;
pub mod decision;
pub mod json;
pub mod runs;
pub mod shark;
pub mod template;
pub mod text;
pub mod tools;
