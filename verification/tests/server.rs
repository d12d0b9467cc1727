use noyalib_mcp::prompts::prompt_names;
use noyalib_mcp::tools::validate;
use noyalib_mcp::server::{
    instructions, is_known_tool, reply, server_name, tool_names, unknown_tool_message,
    unknown_tool_reply, verdict_reply, TOOL_NAMES,
};

#[test]
fn the_server_describes_itself() {
    assert_eq!(server_name(), "noyalib-mcp");
    let i = instructions();
    assert!(i.contains("noyalib_get") && i.contains("noyalib_validate"));
}

#[test]
fn the_routers_agree_with_the_name_lists() {
    for name in tool_names() {
        assert!(is_known_tool(name), "{name}");
    }
    assert!(!is_known_tool("frobnicate"));
    assert!(!is_known_tool(""));
    assert_eq!(prompt_names().len(), 1);
}

#[test]
fn an_unknown_tool_is_a_result_the_model_can_read() {
    let r = unknown_tool_reply("frobnicate");
    assert!(r.is_error);
    assert!(!r.structured);
    assert!(r.text.contains("Unknown tool: frobnicate"), "{}", r.text);
    assert!(r.text.contains("noyalib_get"), "{}", r.text);
}

#[test]
fn the_unknown_tool_message_lists_every_tool() {
    assert_eq!(
        unknown_tool_message("no_such_tool"),
        "Unknown tool: no_such_tool. The tools are noyalib_get, noyalib_set, noyalib_set_multidoc, noyalib_parse, noyalib_edit, noyalib_validate."
    );
}

#[test]
fn a_verdict_flagged_invalid_keeps_its_structured_half() {
    let r = reply(Ok("{}".to_string()), true);
    assert!(r.is_error && r.structured);
    assert_eq!(r.text, "{}");
}

#[test]
fn an_invalid_verdict_is_flagged_and_keeps_its_structure() {
    let v = validate("a: [\n", None).unwrap();
    let r = verdict_reply(&v);
    assert!(r.is_error && r.structured);
    assert!(r.text.starts_with("{\"valid\":false,\"error\":"), "{}", r.text);
    let v = validate("a: 1\n", None).unwrap();
    let r = verdict_reply(&v);
    assert!(!r.is_error && r.structured);
    assert_eq!(r.text, "{\"valid\":true,\"violations\":[]}");
}

#[test]
fn the_name_constants_agree_with_the_lists() {
    assert_eq!(tool_names(), TOOL_NAMES.to_vec());
    assert_eq!(prompt_names(), noyalib_mcp::prompts::PROMPT_NAMES.to_vec());
}
