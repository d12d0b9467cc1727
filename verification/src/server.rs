//! The decisions of the server around the tools: which tools exist, what
//! a call to one that does not is answered, and how a tool's outcome
//! becomes the result a model reads.

use vstd::prelude::*;

use crate::text::{join, same_text, seq_join, str_views};
use crate::tools::{verdict_json, ValidateOutput};

verus! {

/// The names of the tools, in the order they are listed.
pub open spec fn spec_tool_names() -> Seq<Seq<char>> {
    seq![
        "noyalib_get"@,
        "noyalib_set"@,
        "noyalib_set_multidoc"@,
        "noyalib_parse"@,
        "noyalib_edit"@,
        "noyalib_validate"@,
    ]
}

/// The names of the tools, in the order they are listed.
pub const TOOL_NAMES: [&'static str; 6] = [
    "noyalib_get",
    "noyalib_set",
    "noyalib_set_multidoc",
    "noyalib_parse",
    "noyalib_edit",
    "noyalib_validate",
];

/// The names of the tools, for the message an unknown name draws.
pub fn tool_names() -> (r: Vec<&'static str>)
    ensures
        str_views(r@) == spec_tool_names(),
{
    let mut v: Vec<&'static str> = Vec::new();
    v.push("noyalib_get");
    v.push("noyalib_set");
    v.push("noyalib_set_multidoc");
    v.push("noyalib_parse");
    v.push("noyalib_edit");
    v.push("noyalib_validate");
    assert(str_views(v@) =~= spec_tool_names());
    v
}

/// Whether the server has a tool called `name`.
pub fn is_known_tool(name: &str) -> (r: bool)
    ensures
        r == spec_tool_names().contains(name@),
{
    let names = tool_names();
    let mut i: usize = 0;
    while i < names.len()
        invariant
            str_views(names@) == spec_tool_names(),
            i <= names.len(),
            forall|j: int| 0 <= j < i ==> spec_tool_names()[j] != name@,
        decreases names.len() - i,
    {
        if same_text(names[i], name) {
            assert(spec_tool_names()[i as int] == names@[i as int]@);
            return true;
        }
        assert(spec_tool_names()[i as int] == names@[i as int]@);
        i = i + 1;
    }
    proof {
        if spec_tool_names().contains(name@) {
            let j = choose|j: int| 0 <= j < spec_tool_names().len() && spec_tool_names()[j]
                == name@;
            assert(spec_tool_names()[j] != name@);
        }
    }
    false
}

/// The text a call to a tool the server does not have draws: the name
/// it was given, then every tool that exists.
pub open spec fn unknown_tool_text(name: Seq<char>) -> Seq<char> {
    "Unknown tool: "@ + name + ". The tools are "@ + seq_join(spec_tool_names(), ", "@) + "."@
}

/// The message for a call to a tool the server does not have.
pub fn unknown_tool_message(name: &str) -> (r: String)
    ensures
        r@ == unknown_tool_text(name@),
{
    let mut s = String::from_str("Unknown tool: ");
    s.append(name);
    s.append(". The tools are ");
    let names = tool_names();
    let all = join(&names, ", ");
    s.append(all.as_str());
    s.append(".");
    s
}

/// What a tool call is answered with, before the protocol layer wraps it:
/// the text the model reads, whether the result is flagged as a failure,
/// and whether the answer also travels as structured content.
#[derive(Debug, Clone, PartialEq, Eq)]
pub struct ToolReply {
    /// The text for the model.
    pub text: String,
    /// Whether the result carries `isError: true`.
    pub is_error: bool,
    /// Whether the structured half is attached.
    pub structured: bool,
}

/// A tool's outcome as the result the model reads.
///
/// A tool that ran and produced an answer (`Ok` with its text) keeps the
/// answer twice, as text and as structured content, flagged as a failure
/// only when `flagged` says the answer is one (an invalid verdict). A
/// tool that could not do the job (`Err` with its message) is a result
/// too, flagged, with the text only: the structured schema describes an
/// answer, and an error is not one.
pub fn reply(outcome: Result<String, String>, flagged: bool) -> (r: ToolReply)
    ensures
        match outcome {
            Ok(t) => r.text@ == t@ && r.is_error == flagged && r.structured,
            Err(m) => r.text@ == m@ && r.is_error && !r.structured,
        },
{
    match outcome {
        Ok(text) => ToolReply { text, is_error: flagged, structured: true },
        Err(message) => ToolReply { text: message, is_error: true, structured: false },
    }
}

/// The answer to a call to a tool the server does not have: a result the
/// model can read, flagged, naming the tools that exist, and not a
/// protocol error.
pub fn unknown_tool_reply(name: &str) -> (r: ToolReply)
    ensures
        r.text@ == unknown_tool_text(name@),
        r.is_error,
        !r.structured,
{
    reply(Err(unknown_tool_message(name)), true)
}

/// How a validation verdict is answered: as compact JSON, flagged as a
/// failure when the document is invalid, and keeping its structured
/// half, since it is a complete verdict.
pub fn verdict_reply(v: &ValidateOutput) -> (r: ToolReply)
    ensures
        r.text@ == verdict_json(*v),
        r.is_error == !v.valid,
        r.structured,
{
    reply(Ok(v.to_text()), !v.valid)
}

/// What the server says it is for, in `initialize` and discovery.
pub open spec fn instructions_text() -> Seq<char> {
    "Read and edit YAML files losslessly. noyalib_get reads the value at a dotted/indexed path in a file; noyalib_set and noyalib_set_multidoc rewrite one value while preserving every comment and all formatting. noyalib_parse, noyalib_edit and noyalib_validate do the same for YAML text given in the request and touch nothing on disk."@
}

/// What the server says it is for.
pub fn instructions() -> (r: &'static str)
    ensures
        r@ == instructions_text(),
{
    "Read and edit YAML files losslessly. noyalib_get reads the value at a dotted/indexed path in a file; noyalib_set and noyalib_set_multidoc rewrite one value while preserving every comment and all formatting. noyalib_parse, noyalib_edit and noyalib_validate do the same for YAML text given in the request and touch nothing on disk."
}

/// The name the server gives itself.
pub fn server_name() -> (r: &'static str)
    ensures
        r@ == "noyalib-mcp"@,
{
    "noyalib-mcp"
}

/// One hour, in milliseconds: the freshness hint on the cacheable
/// results.
pub const CACHE_TTL_MS: u64 = 3600000;

} // verus!
