//! The resources: read-only reference context an agent can pin without a
//! tool call — the failure taxonomy, the tool reference, and one
//! descriptor per tool. None of them touch the filesystem or accept a
//! caller-supplied path.

use vstd::prelude::*;

use crate::text::{has_prefix, same_text, strip_prefix};

verus! {

/// The URI of the failure taxonomy.
pub open spec fn error_codes_uri() -> Seq<char> {
    ERROR_CODES_URI@
}

/// The URI of the tool reference.
pub open spec fn tools_uri() -> Seq<char> {
    TOOLS_URI@
}

/// The prefix of a single tool's descriptor.
pub open spec fn tool_uri_prefix() -> Seq<char> {
    TOOL_URI_PREFIX@
}

/// The media type of every resource.
pub open spec fn json_mime() -> Seq<char> {
    "application/json"@
}

/// The URI of the failure taxonomy.
pub const ERROR_CODES_URI: &'static str = "noyalib://error-codes";

/// The URI of the tool reference.
pub const TOOLS_URI: &'static str = "noyalib://tools";

/// The prefix of a single tool's descriptor.
pub const TOOL_URI_PREFIX: &'static str = "noyalib://tool/";

/// The template every single-tool descriptor matches.
pub const TOOL_URI_TEMPLATE: &'static str = "noyalib://tool/{name}";

/// The JSON-RPC code for a resource that does not exist.
pub const RESOURCE_NOT_FOUND: i32 = -32002;

/// A static resource, as `resources/list` describes it.
#[derive(Debug, Clone, PartialEq, Eq)]
pub struct ResourceInfo {
    /// Where it is read.
    pub uri: String,
    /// Its short name.
    pub name: String,
    /// Its title.
    pub title: String,
    /// What it holds.
    pub description: String,
    /// Its media type.
    pub mime_type: String,
}

/// A templated resource, as `resources/templates/list` describes it.
#[derive(Debug, Clone, PartialEq, Eq)]
pub struct ResourceTemplateInfo {
    /// The URI template every matching resource fits.
    pub uri_template: String,
    /// Its short name.
    pub name: String,
    /// Its title.
    pub title: String,
    /// What it holds.
    pub description: String,
    /// Its media type.
    pub mime_type: String,
}

/// The static resources, for `resources/list`: the failure taxonomy,
/// then the tool reference, each with its name, title, description and
/// the JSON media type.
pub fn list() -> (r: Vec<ResourceInfo>)
    ensures
        r@.len() == 2,
        r@[0].uri@ == error_codes_uri(),
        r@[0].name@ == "error-codes"@,
        r@[0].title@ == "noyalib-mcp failure taxonomy"@,
        r@[0].description@
            == "How this server reports failure: the tool failures that arrive as isError results, and the JSON-RPC error codes."@,
        r@[1].uri@ == tools_uri(),
        r@[1].name@ == "tools"@,
        r@[1].title@ == "noyalib-mcp tool reference"@,
        r@[1].description@ == "The tool descriptors this server exposes (mirrors tools/list)."@,
        forall|i: int| 0 <= i < 2 ==> (#[trigger] r@[i]).mime_type@ == json_mime(),
{
    let mut v: Vec<ResourceInfo> = Vec::new();
    v.push(
        ResourceInfo {
            uri: String::from_str("noyalib://error-codes"),
            name: String::from_str("error-codes"),
            title: String::from_str("noyalib-mcp failure taxonomy"),
            description: String::from_str(
                "How this server reports failure: the tool failures that arrive as isError results, and the JSON-RPC error codes.",
            ),
            mime_type: String::from_str("application/json"),
        },
    );
    v.push(
        ResourceInfo {
            uri: String::from_str("noyalib://tools"),
            name: String::from_str("tools"),
            title: String::from_str("noyalib-mcp tool reference"),
            description: String::from_str(
                "The tool descriptors this server exposes (mirrors tools/list).",
            ),
            mime_type: String::from_str("application/json"),
        },
    );
    v
}

/// The templated resources, for `resources/templates/list`: one, the
/// descriptor of a single tool by name.
pub fn templates() -> (r: Vec<ResourceTemplateInfo>)
    ensures
        r@.len() == 1,
        r@[0].uri_template@ == "noyalib://tool/{name}"@,
        r@[0].name@ == "tool"@,
        r@[0].title@ == "noyalib-mcp tool descriptor"@,
        r@[0].description@
            == "The descriptor for a single tool by name (noyalib_get, noyalib_set, noyalib_set_multidoc, noyalib_parse, noyalib_edit or noyalib_validate)."@,
        r@[0].mime_type@ == json_mime(),
{
    let mut v: Vec<ResourceTemplateInfo> = Vec::new();
    v.push(
        ResourceTemplateInfo {
            uri_template: String::from_str("noyalib://tool/{name}"),
            name: String::from_str("tool"),
            title: String::from_str("noyalib-mcp tool descriptor"),
            description: String::from_str(
                "The descriptor for a single tool by name (noyalib_get, noyalib_set, noyalib_set_multidoc, noyalib_parse, noyalib_edit or noyalib_validate).",
            ),
            mime_type: String::from_str("application/json"),
        },
    );
    v
}

/// What a resource URI names.
#[derive(Debug, Clone, Copy, PartialEq, Eq)]
pub enum ResourceTarget {
    /// The failure taxonomy.
    ErrorCodes,
    /// The tool reference: every tool's descriptor.
    ToolReference,
    /// The descriptor of the tool at this index of the tool list.
    ToolDescriptor(usize),
}

/// The refusal of a resource that does not exist.
#[derive(Debug, Clone, PartialEq, Eq)]
pub struct ResourceNotFound {
    /// The JSON-RPC error code, `-32002`.
    pub code: i32,
    /// `resource not found: <uri>`.
    pub message: String,
    /// The URI asked for.
    pub uri: String,
}

/// The tool name a URI names: what follows the descriptor prefix, or
/// nothing.
pub open spec fn named_tool(uri: Seq<char>) -> Seq<char> {
    if has_prefix(uri, tool_uri_prefix()) {
        uri.subrange(tool_uri_prefix().len() as int, uri.len() as int)
    } else {
        Seq::empty()
    }
}

/// The views of a list of strings.
pub open spec fn string_views(names: Seq<String>) -> Seq<Seq<char>> {
    names.map_values(|s: String| s@)
}

/// Whether `uri` names a resource, given the names of the tools the
/// server advertises.
pub open spec fn resource_exists(uri: Seq<char>, names: Seq<Seq<char>>) -> bool {
    ||| uri == error_codes_uri()
    ||| uri == tools_uri()
    ||| named_tool(uri).len() > 0 && names.contains(named_tool(uri))
}

/// `t` is what `uri` names, given the tool names `names`: the failure
/// taxonomy or the tool reference at their fixed URIs, or the first tool
/// of the name that follows the descriptor prefix.
pub open spec fn is_target(uri: Seq<char>, names: Seq<Seq<char>>, t: ResourceTarget) -> bool {
    match t {
        ResourceTarget::ErrorCodes => uri == error_codes_uri(),
        ResourceTarget::ToolReference => uri == tools_uri() && uri != error_codes_uri(),
        ResourceTarget::ToolDescriptor(i) => {
            &&& uri != error_codes_uri()
            &&& uri != tools_uri()
            &&& i < names.len()
            &&& named_tool(uri).len() > 0
            &&& names[i as int] == named_tool(uri)
            &&& forall|j: int| 0 <= j < i ==> names[j] != named_tool(uri)
        },
    }
}

/// Resolve the resource at `uri`, given the names of the tools the
/// server advertises, in order.
///
/// The failure taxonomy and the tool reference have fixed URIs; a
/// single tool's descriptor is `noyalib://tool/<name>` for a tool that
/// exists (the first of that name).
///
/// # Errors
///
/// No resource has that URI: code `-32002`, with a message naming the
/// URI.
pub fn read(uri: &str, tool_names: &Vec<String>) -> (r: Result<ResourceTarget, ResourceNotFound>)
    ensures
        r is Ok <==> resource_exists(uri@, string_views(tool_names@)),
        r matches Ok(t) ==> is_target(uri@, string_views(tool_names@), t),
        r matches Err(e) ==> e.code == RESOURCE_NOT_FOUND && e.message@ == "resource not found: "@
            + uri@ && e.uri@ == uri@,
{
    if same_text(uri, "noyalib://error-codes") {
        return Ok(ResourceTarget::ErrorCodes);
    }
    if same_text(uri, "noyalib://tools") {
        proof {
            reveal_strlit("noyalib://tools");
            reveal_strlit("noyalib://error-codes");
            assert(uri@ != error_codes_uri());
        }
        return Ok(ResourceTarget::ToolReference);
    }
    proof {
        reveal_strlit("noyalib://tools");
        reveal_strlit("noyalib://error-codes");
        reveal_strlit("noyalib://tool/");
        reveal_strlit("");
    }
    let name: &str = match strip_prefix(uri, "noyalib://tool/") {
        Some(rest) => rest,
        None => "",
    };
    assert(name@ == named_tool(uri@));
    let ghost names = string_views(tool_names@);
    if name.unicode_len() > 0 {
        let mut i: usize = 0;
        while i < tool_names.len()
            invariant
                i <= tool_names.len(),
                names == string_views(tool_names@),
                name@ == named_tool(uri@),
                name@.len() > 0,
                uri@ != error_codes_uri(),
                uri@ != tools_uri(),
                forall|j: int| 0 <= j < i ==> tool_names@[j]@ != name@,
            decreases tool_names.len() - i,
        {
            if same_text(tool_names[i].as_str(), name) {
                assert(names[i as int] == name@);
                assert forall|j: int| 0 <= j < i implies names[j] != name@ by {
                    assert(names[j] == tool_names@[j]@);
                }
                return Ok(ResourceTarget::ToolDescriptor(i));
            }
            i = i + 1;
        }
        proof {
            if names.contains(name@) {
                let j = choose|j: int| 0 <= j < names.len() && names[j] == name@;
                assert(tool_names@[j]@ == names[j]);
            }
        }
    }
    let mut message = String::from_str("resource not found: ");
    message.append(uri);
    Err(ResourceNotFound { code: RESOURCE_NOT_FOUND, message, uri: String::from_str(uri) })
}

/// The failure taxonomy, as compact JSON with its keys in order.
pub open spec fn error_codes_text() -> Seq<char> {
    "{\"jsonRpc\":{\"-32002\":\"resource not found\",\"-32020\":\"a mirrored routing header disagrees with the body (2026-07-28)\",\"-32022\":\"unsupported protocol version\",\"-32600\":\"invalid request\",\"-32601\":\"method not found\",\"-32602\":\"invalid parameters (a prompt that does not exist)\"},\"toolFailures\":{\"Unknown tool\":\"no tool of that name; the message lists the tools that exist\",\"doc_index <n> out of range\":\"the stream has fewer documents; the file is unchanged\",\"invalid arguments\":\"a required argument is missing or mistyped; the message names the field\",\"parse\":\"the request's YAML text does not parse\",\"parse <file>\":\"the file is not YAML the library accepts\",\"path not found in <file>\":\"no value at the dotted/indexed path\",\"read <file>\":\"the file could not be read\",\"schema\":\"the schema is not a JSON Schema the library accepts\",\"schema is not JSON\":\"the schema argument is not JSON text\",\"set <path> = <value>\":\"the fragment cannot be applied at the path (unknown path, or a fragment that does not parse there); the file is unchanged\",\"write <file>\":\"the file could not be written\"}}"@
}

/// The failure taxonomy: how this server reports failure. A tool that
/// ran and could not do the job answers with a successful response
/// flagged `isError`, whose text starts with what failed; a request the
/// protocol rejects is a JSON-RPC error.
pub fn error_codes_json() -> (r: String)
    ensures
        r@ == error_codes_text(),
{
    String::from_str(
        "{\"jsonRpc\":{\"-32002\":\"resource not found\",\"-32020\":\"a mirrored routing header disagrees with the body (2026-07-28)\",\"-32022\":\"unsupported protocol version\",\"-32600\":\"invalid request\",\"-32601\":\"method not found\",\"-32602\":\"invalid parameters (a prompt that does not exist)\"},\"toolFailures\":{\"Unknown tool\":\"no tool of that name; the message lists the tools that exist\",\"doc_index <n> out of range\":\"the stream has fewer documents; the file is unchanged\",\"invalid arguments\":\"a required argument is missing or mistyped; the message names the field\",\"parse\":\"the request's YAML text does not parse\",\"parse <file>\":\"the file is not YAML the library accepts\",\"path not found in <file>\":\"no value at the dotted/indexed path\",\"read <file>\":\"the file could not be read\",\"schema\":\"the schema is not a JSON Schema the library accepts\",\"schema is not JSON\":\"the schema argument is not JSON text\",\"set <path> = <value>\":\"the fragment cannot be applied at the path (unknown path, or a fragment that does not parse there); the file is unchanged\",\"write <file>\":\"the file could not be written\"}}",
    )
}

/// What a read of a resource answers: what the URI names, the URI
/// echoed, the media type, and the text when the library holds it (the
/// failure taxonomy). The tool reference and a tool's descriptor are the
/// server's own tool descriptors, which the protocol layer prints.
#[derive(Debug, Clone, PartialEq, Eq)]
pub struct ResourceReply {
    /// What the URI names.
    pub target: ResourceTarget,
    /// The URI asked for.
    pub uri: String,
    /// The media type, `application/json`.
    pub mime_type: String,
    /// The text, for the failure taxonomy.
    pub text: Option<String>,
}

/// Read the resource at `uri`, given the names of the tools the server
/// advertises, in order: the reply echoes the URI, is JSON, and for the
/// failure taxonomy carries its text.
///
/// # Errors
///
/// As [`read`]: no resource has that URI.
pub fn read_resource(uri: &str, tool_names: &Vec<String>) -> (r: Result<
    ResourceReply,
    ResourceNotFound,
>)
    ensures
        r is Ok <==> resource_exists(uri@, string_views(tool_names@)),
        r matches Ok(reply) ==> {
            &&& is_target(uri@, string_views(tool_names@), reply.target)
            &&& reply.uri@ == uri@
            &&& reply.mime_type@ == json_mime()
            &&& reply.text is Some <==> reply.target is ErrorCodes
            &&& reply.text matches Some(t) ==> t@ == error_codes_text()
        },
        r matches Err(e) ==> e.code == RESOURCE_NOT_FOUND && e.message@ == "resource not found: "@
            + uri@ && e.uri@ == uri@,
{
    let target = read(uri, tool_names)?;
    let text = match target {
        ResourceTarget::ErrorCodes => Some(error_codes_json()),
        _ => None,
    };
    Ok(
        ResourceReply {
            target,
            uri: String::from_str(uri),
            mime_type: String::from_str("application/json"),
            text,
        },
    )
}

} // verus!
