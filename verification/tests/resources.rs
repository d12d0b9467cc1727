use noyalib_mcp::resources::{
    error_codes_json, list, read, read_resource, templates, ResourceTarget, ERROR_CODES_URI,
    RESOURCE_NOT_FOUND, TOOLS_URI, TOOL_URI_PREFIX, TOOL_URI_TEMPLATE,
};
use noyalib_mcp::server::tool_names;
use serde_json::Value;

fn names() -> Vec<String> {
    tool_names().into_iter().map(String::from).collect()
}

#[test]
fn list_names_the_static_resources() {
    let r = list();
    let uris: Vec<&str> = r.iter().map(|r| r.uri.as_str()).collect();
    assert_eq!(uris, ["noyalib://error-codes", "noyalib://tools"]);
    for r in &r {
        assert_eq!(r.mime_type, "application/json");
        assert!(!r.title.is_empty() && !r.description.is_empty(), "{}", r.uri);
    }
}

#[test]
fn templates_lists_the_tool_template() {
    let t = templates();
    assert_eq!(t.len(), 1);
    assert_eq!(t[0].uri_template, "noyalib://tool/{name}");
    assert_eq!(t[0].mime_type, "application/json");
}

#[test]
fn read_returns_the_failure_taxonomy() {
    assert_eq!(read("noyalib://error-codes", &Vec::new()), Ok(ResourceTarget::ErrorCodes));
    let parsed: Value = serde_json::from_str(&error_codes_json()).unwrap();
    assert!(parsed["jsonRpc"]["-32601"].is_string());
    assert!(parsed["toolFailures"]["Unknown tool"].is_string());
}

#[test]
fn read_returns_the_tool_reference_and_single_descriptors() {
    let tools = names();
    assert_eq!(read("noyalib://tools", &tools), Ok(ResourceTarget::ToolReference));
    assert_eq!(
        read("noyalib://tool/noyalib_get", &tools),
        Ok(ResourceTarget::ToolDescriptor(0))
    );
    assert_eq!(
        read("noyalib://tool/noyalib_validate", &tools),
        Ok(ResourceTarget::ToolDescriptor(5))
    );
}

#[test]
fn read_refuses_what_does_not_exist() {
    let tools = names();
    for uri in ["noyalib://tool/frobnicate", "noyalib://tool/", "noyalib://mystery", ""] {
        let err = read(uri, &tools).unwrap_err();
        assert_eq!(err.code, RESOURCE_NOT_FOUND, "{uri}");
        assert_eq!(err.code, -32002);
        assert!(err.message.contains(uri), "{uri}: {}", err.message);
        assert_eq!(err.uri, uri);
    }
}

#[test]
fn the_listed_resources_carry_their_names_and_titles() {
    let r = list();
    assert_eq!(r[0].name, "error-codes");
    assert_eq!(r[0].title, "noyalib-mcp failure taxonomy");
    assert_eq!(r[1].name, "tools");
    assert_eq!(r[1].title, "noyalib-mcp tool reference");
    assert_eq!(
        r[1].description,
        "The tool descriptors this server exposes (mirrors tools/list)."
    );
    let t = templates();
    assert_eq!(t[0].name, "tool");
    assert_eq!(t[0].title, "noyalib-mcp tool descriptor");
    assert!(t[0].description.contains("noyalib_set_multidoc"));
}

#[test]
fn the_failure_taxonomy_names_every_tool_failure() {
    let parsed: Value = serde_json::from_str(&error_codes_json()).unwrap();
    let failures = parsed["toolFailures"].as_object().unwrap();
    assert_eq!(failures.len(), 11);
    assert!(failures.contains_key("doc_index <n> out of range"));
    assert_eq!(parsed["jsonRpc"]["-32002"], "resource not found");
}

#[test]
fn a_resource_reply_echoes_the_uri_and_is_json() {
    let tools = names();
    let r = read_resource("noyalib://error-codes", &tools).unwrap();
    assert_eq!(r.target, ResourceTarget::ErrorCodes);
    assert_eq!(r.uri, "noyalib://error-codes");
    assert_eq!(r.mime_type, "application/json");
    assert_eq!(r.text, Some(error_codes_json()));
    let r = read_resource("noyalib://tools", &tools).unwrap();
    assert_eq!((r.target, r.uri.as_str(), r.text), (ResourceTarget::ToolReference, "noyalib://tools", None));
    let r = read_resource("noyalib://tool/noyalib_edit", &tools).unwrap();
    assert_eq!(r.target, ResourceTarget::ToolDescriptor(4));
    assert_eq!(r.mime_type, "application/json");
    let e = read_resource("noyalib://nope", &tools).unwrap_err();
    assert_eq!(e.code, -32002);
    assert_eq!(e.message, "resource not found: noyalib://nope");
}

#[test]
fn the_uri_constants_name_the_resources() {
    assert_eq!(list()[0].uri, ERROR_CODES_URI);
    assert_eq!(list()[1].uri, TOOLS_URI);
    assert_eq!(templates()[0].uri_template, TOOL_URI_TEMPLATE);
    let uri = format!("{TOOL_URI_PREFIX}noyalib_get");
    assert_eq!(read(&uri, &names()), Ok(ResourceTarget::ToolDescriptor(0)));
}
