//! The tool that switches the default Rust toolchain.

use vstd::prelude::*;
use vstd::string::*;
use vstd::utf8::{decode_utf8, valid_utf8};
use crate::json::{encode, json_field, json_object, lookup, Field, FieldView};
use crate::text::from_utf8;
use crate::tools::{ToolDescriptor, ToolError, ToolView};

verus! {

/// Switches the default Rust toolchain with `rustup`.
#[derive(Debug)]
pub struct RustToolchainSwitcher {}

impl Default for RustToolchainSwitcher {
    fn default() -> (r: RustToolchainSwitcher)
        ensures
            r == (RustToolchainSwitcher {  }),
    {
        RustToolchainSwitcher {  }
    }
}

/// The command line that switches to the toolchain found in the input.
pub open spec fn command_for(toolchain: FieldView) -> Result<Seq<Seq<char>>, ToolError> {
    match toolchain {
        FieldView::Text(version) => Ok(seq!["rustup"@, "default"@, version]),
        _ => Err(ToolError::MissingParameter),
    }
}

/// The members of the report on a finished command, in the order in which
/// they are handed to the encoder.
pub open spec fn report_members(stdout: Seq<u8>, stderr: Seq<u8>) -> Seq<(Seq<char>, Seq<char>)> {
    seq![("result"@, decode_utf8(stdout)), ("error"@, decode_utf8(stderr))]
}

/// The report on a finished command: a JSON object that holds what the
/// command wrote to its standard output under `result` and what it wrote to
/// its standard error under `error`.
pub open spec fn response_for(stdout: Seq<u8>, stderr: Seq<u8>) -> Result<Seq<char>, ToolError> {
    if !valid_utf8(stdout) || !valid_utf8(stderr) {
        Err(ToolError::OutputNotText)
    } else {
        match json_object(report_members(stdout, stderr)) {
            Some(text) => Ok(text),
            None => Err(ToolError::Encoding),
        }
    }
}

impl RustToolchainSwitcher {
    /// The command line for what the input holds under `toolchain`: the
    /// program first, then its arguments.
    pub fn command_from(&self, toolchain: Field) -> (r: Result<Vec<String>, ToolError>)
        ensures
            match r {
                Ok(words) => command_for(toolchain@) == Ok::<Seq<Seq<char>>, ToolError>(
                    words.deep_view(),
                ),
                Err(e) => command_for(toolchain@) == Err::<Seq<Seq<char>>, ToolError>(e),
            },
    {
        match toolchain {
            Field::Text(version) => {
                let mut words: Vec<String> = Vec::new();
                words.push(String::from_str("rustup"));
                words.push(String::from_str("default"));
                words.push(version);
                assert(words.deep_view() =~= seq!["rustup"@, "default"@, version@]);
                Ok(words)
            },
            _ => Err(ToolError::MissingParameter),
        }
    }

    /// The command line that the tool runs on `input`, a JSON text: `rustup
    /// default` and the string that the input's object holds under
    /// `toolchain`. Any other input is refused.
    pub fn command(&self, input: &str) -> (r: Result<Vec<String>, ToolError>)
        ensures
            match r {
                Ok(words) => command_for(json_field(input@, "toolchain"@)) == Ok::<
                    Seq<Seq<char>>,
                    ToolError,
                >(words.deep_view()),
                Err(e) => command_for(json_field(input@, "toolchain"@)) == Err::<
                    Seq<Seq<char>>,
                    ToolError,
                >(e),
            },
    {
        self.command_from(lookup(input, "toolchain"))
    }

    /// The tool's answer once the command has finished: what it wrote, as a
    /// JSON object. Output that is not UTF-8 is an error.
    pub fn response(&self, stdout: Vec<u8>, stderr: Vec<u8>) -> (r: Result<String, ToolError>)
        ensures
            match r {
                Ok(text) => response_for(stdout@, stderr@) == Ok::<Seq<char>, ToolError>(text@),
                Err(e) => response_for(stdout@, stderr@) == Err::<Seq<char>, ToolError>(e),
            },
    {
        let output = match from_utf8(stdout) {
            Some(text) => text,
            None => { return Err(ToolError::OutputNotText); },
        };
        let error = match from_utf8(stderr) {
            Some(text) => text,
            None => { return Err(ToolError::OutputNotText); },
        };
        let mut members: Vec<(String, String)> = Vec::new();
        members.push((String::from_str("result"), output));
        members.push((String::from_str("error"), error));
        assert(members.deep_view() =~= report_members(stdout@, stderr@));
        self.response_from(encode(&members))
    }

    /// The tool's answer, given the report as the encoder wrote it: an
    /// error where it wrote none.
    pub fn response_from(&self, report: Option<String>) -> (r: Result<String, ToolError>)
        ensures
            match report {
                Some(text) => r == Ok::<String, ToolError>(text),
                None => r == Err::<String, ToolError>(ToolError::Encoding),
            },
    {
        match report {
            Some(text) => Ok(text),
            None => Err(ToolError::Encoding),
        }
    }

    /// The descriptor of this tool.
    pub open spec fn descriptor_view() -> ToolView {
        ToolView {
            name: "rust_toolchain_switcher"@,
            description: "Switch rust toolchain between 'stable', 'nightly' and others"@,
            parameters: "{\"type\":\"object\",\"properties\":{\"toolchain\":{\"type\":\"string\",\"description\":\"The toolchain you want to switch\"}},\"required\":[\"toolchain\"]}"@,
            required: seq!["toolchain"@],
        }
    }

    /// The name of the tool.
    pub fn name(&self) -> (r: String)
        ensures
            r@ == Self::descriptor_view().name,
    {
        String::from_str("rust_toolchain_switcher")
    }

    /// What the tool does.
    pub fn description(&self) -> (r: String)
        ensures
            r@ == Self::descriptor_view().description,
    {
        String::from_str("Switch rust toolchain between 'stable', 'nightly' and others")
    }

    /// The schema of the tool's parameters, as a JSON text: an object with
    /// one required string, `toolchain`.
    pub fn parameters(&self) -> (r: String)
        ensures
            r@ == Self::descriptor_view().parameters,
    {
        String::from_str(
            "{\"type\":\"object\",\"properties\":{\"toolchain\":{\"type\":\"string\",\"description\":\"The toolchain you want to switch\"}},\"required\":[\"toolchain\"]}",
        )
    }

    /// The descriptor under which the catalog holds the tool.
    pub fn descriptor(&self) -> (r: ToolDescriptor)
        ensures
            r@ == Self::descriptor_view(),
    {
        let mut required: Vec<String> = Vec::new();
        required.push(String::from_str("toolchain"));
        assert(required.deep_view() =~= seq!["toolchain"@]);
        ToolDescriptor {
            name: self.name(),
            description: self.description(),
            parameters: self.parameters(),
            required,
        }
    }
}

} // verus!
