use noyalib_mcp::json::quote_json;
use noyalib_mcp::server::reply;
use noyalib_mcp::tools::{
    edit, get_from_source, internal, parse, parse_failure_verdict, read_failure, schema_verdict,
    set_in_source, set_multidoc_in_source, validate, write_failure, EditOutput, GetOutput,
    ParseOutput, SetMultidocOutput, SetOutput, Violation,
};
use serde_json::Value;

fn json(text: &str) -> Value {
    serde_json::from_str(text).unwrap()
}

// ── get ────────────────────────────────────────────────────────────

#[test]
fn get_reads_the_source_slice() {
    let out = get_from_source("f.yml", "name: noyalib\n", "name").unwrap();
    assert_eq!(out.to_string(), "noyalib");
    assert_eq!(out, GetOutput { value: "noyalib".into() });
}

#[test]
fn get_of_an_empty_value_is_the_empty_slice_not_an_error() {
    // `a:` and `c:` are present keys with an implicit null value. They
    // must not read as "path not found".
    let src = "a:\nb: 1\nc:\n";
    for key in ["a", "c"] {
        let out = get_from_source("f.yml", src, key).unwrap();
        assert_eq!(out.to_string(), "");
    }
    let err = get_from_source("f.yml", src, "missing").unwrap_err();
    assert!(err.contains("path not found"), "{err}");
    assert_eq!(err, "path not found in f.yml: missing");
}

#[test]
fn get_reports_every_failure_as_text() {
    let err = read_failure("/this/path/definitely/does/not/exist.yml", "not found");
    assert!(err.starts_with("read "), "{err}");
    assert_eq!(err, "read /this/path/definitely/does/not/exist.yml: not found");
    let err = get_from_source("g.yml", "key: [\n", "key").unwrap_err();
    assert!(err.starts_with("parse g.yml: "), "{err}");
}

#[test]
fn tool_call_get_reads_value_at_path() {
    let out = get_from_source("x.yml", "name: noyalib\nport: 8080\n", "port").unwrap();
    assert_eq!(out.value, "8080");
    let r = reply(Ok(out.to_string()), false);
    assert!(!r.is_error && r.structured);
    assert_eq!(r.text, "8080");
}

#[test]
fn get_reads_nested_and_indexed_paths() {
    let src = "server:\n  host: api.example.com  # public\n  port: 8080\nitems:\n  - one\n  - two\n";
    assert_eq!(get_from_source("f", src, "server.host").unwrap().value, "api.example.com");
    assert_eq!(get_from_source("f", src, "items[1]").unwrap().value, "two");
}

// ── set ────────────────────────────────────────────────────────────

#[test]
fn set_rewrites_only_the_touched_span() {
    let (text, out) = set_in_source("f.yml", "# keep\nversion: 1 # inline\n", "version", "2").unwrap();
    assert!(out.to_string().contains("set version = 2"), "{}", out.to_string());
    assert_eq!(
        out,
        SetOutput { file: "f.yml".into(), path: "version".into(), value: "2".into() }
    );
    assert_eq!(text, "# keep\nversion: 2 # inline\n");
}

#[test]
fn set_reports_every_failure_and_leaves_the_file_alone() {
    let err = read_failure("/this/path/does/not/exist.yml", "gone");
    assert!(err.starts_with("read "), "{err}");

    let err = set_in_source("p.yml", "k: [\n", "k", "v").unwrap_err();
    assert!(err.starts_with("parse "), "{err}");

    let err = set_in_source("p.yml", "a: 1\n", "missing.path", "v").unwrap_err();
    assert!(err.starts_with("set missing.path = v"), "{err}");
}

#[test]
fn tool_call_set_preserves_comments() {
    let src = "# version is bumped by Renovate\nversion: 0.0.1  # do not edit by hand\nname: noyalib\n";
    let (after, _) = set_in_source("v.yml", src, "version", "0.0.2").unwrap();
    assert!(after.contains("version: 0.0.2"));
    assert!(after.contains("# version is bumped by Renovate"));
    assert!(after.contains("# do not edit by hand"));
    assert!(after.contains("name: noyalib"));
}

#[test]
fn write_failures_name_the_file() {
    assert_eq!(write_failure("f.yml", "denied"), "write f.yml: denied");
}

// ── set_multidoc ───────────────────────────────────────────────────

#[test]
fn set_multidoc_changes_one_document_only() {
    let (text, out) =
        set_multidoc_in_source("m.yml", "name: first\n---\nname: second\n", 1, "name", "changed")
            .unwrap();
    assert!(out.to_string().contains("document 1"), "{}", out.to_string());
    assert_eq!(out.doc_index, 1);
    assert_eq!(text, "name: first\n---\nname: changed\n");
}

#[test]
fn set_multidoc_reports_every_failure_and_leaves_the_file_alone() {
    let src = "a: 1\n---\nb: 2\n";
    let err = set_multidoc_in_source("md.yml", src, 9, "b", "3").unwrap_err();
    assert!(err.contains("out of range"), "{err}");
    assert!(err.contains("2 document(s)"), "{err}");
    assert_eq!(err, "doc_index 9 out of range: stream has 2 document(s)");
    let err = set_multidoc_in_source("md.yml", src, 0, "missing.deep", "1").unwrap_err();
    assert!(err.starts_with("set missing.deep = 1"), "{err}");

    let err = set_multidoc_in_source("md.yml", "a: [\n", 0, "a", "1").unwrap_err();
    assert!(err.starts_with("parse "), "{err}");
}

#[test]
fn tool_call_set_multidoc_locates_parse_errors_in_the_file() {
    let err = set_multidoc_in_source("s.yml", "a: 1\n---\nb: 2\n---\nc: *nope\n", 0, "a", "2")
        .unwrap_err();
    assert!(err.contains("line 5, column 4"), "expected the file position: {err}");
    assert!(!err.contains("line 2, column 4"), "{err}");
}

#[test]
fn set_multidoc_keeps_the_other_documents_and_separators() {
    let src = "---\nfoo: 1  # one\n...\n---\nbar: 2\n---\nbaz: 3 # three\n";
    let (text, _) = set_multidoc_in_source("m.yml", src, 1, "bar", "20").unwrap();
    assert_eq!(text, "---\nfoo: 1  # one\n...\n---\nbar: 20\n---\nbaz: 3 # three\n");
}

#[test]
fn set_multidoc_output_text() {
    let out = SetMultidocOutput {
        file: "m.yml".into(),
        doc_index: 12,
        path: "a".into(),
        value: "1".into(),
    };
    assert_eq!(
        out.to_string(),
        "set a = 1 in document 12 of m.yml (lossless: other documents, comments and formatting preserved)"
    );
}

// ── parse ──────────────────────────────────────────────────────────

#[test]
fn parse_is_stateless_and_returns_the_json_model() {
    let out = parse("a: 0x2A\nb: !custom x\nc:\n").unwrap();
    let expected = json(r#"{"a": 42, "b": "x", "c": null}"#);
    let parsed = json(&out.to_text().unwrap());
    assert_eq!(parsed, expected);
    assert_eq!(out.documents, vec![expected]);
    let err = parse("a: [\n").unwrap_err();
    assert!(err.starts_with("parse: "), "{err}");
    let r = reply(Err(err), false);
    assert!(r.is_error && !r.structured);
}

#[test]
fn parse_returns_an_array_for_a_stream() {
    let out = parse("--- 1\n--- 2\n").unwrap();
    let parsed = json(&out.to_text().unwrap());
    assert_eq!(parsed, json("[1, 2]"));
    assert_eq!(out.documents, vec![json("1"), json("2")]);
}

// ── edit ───────────────────────────────────────────────────────────

#[test]
fn edit_returns_the_whole_text_with_one_span_changed() {
    let out = edit("# keep\nversion: 0.0.34 # inline\nname: x\n", "version", "0.0.35").unwrap();
    assert_eq!(out.to_string(), "# keep\nversion: 0.0.35 # inline\nname: x\n");
    assert_eq!(out, EditOutput { yaml: "# keep\nversion: 0.0.35 # inline\nname: x\n".into() });
}

#[test]
fn a_call_returns_text_and_structured_content() {
    let out = edit("# keep\nport: 8080 # inline\n", "port", "9090").unwrap();
    let r = reply(Ok(out.to_string()), false);
    assert!(!r.is_error && r.structured);
    assert_eq!(r.text, "# keep\nport: 9090 # inline\n");
}

#[test]
fn edit_reports_every_failure_as_text() {
    let err = edit("a: [\n", "a", "1").unwrap_err();
    assert!(err.starts_with("parse: "), "{err}");
    let err = edit("a: 1\n", "missing.key", "1").unwrap_err();
    assert!(err.starts_with("set missing.key = 1"), "{err}");
}

#[test]
fn set_and_edit_write_the_same_text() {
    let src = "server:\n  port: 8080  # default\n";
    let (written, _) = set_in_source("f.yml", src, "server.port", "9090").unwrap();
    assert_eq!(edit(src, "server.port", "9090").unwrap().yaml, written);
}

// ── validate ───────────────────────────────────────────────────────

#[test]
fn validate_reports_parse_errors_and_schema_violations() {
    let out = validate("a: [\n", None).unwrap();
    let r = reply(Ok(out.to_text()), !out.valid);
    assert!(r.is_error, "an invalid document is a failure the model must see");
    let v = json(&r.text);
    assert_eq!(v["valid"], false);
    assert!(v["error"].as_str().unwrap().len() > 3);
    assert!(v["line"].is_u64());
    assert!(r.structured);

    let schema = r#"{"type":"object","properties":{"port":{"type":"integer","maximum":65535}},"required":["port"]}"#;
    let out = validate("port: 70000\n", Some(schema)).unwrap();
    assert!(!out.valid);
    let v = json(&out.to_text());
    assert_eq!(v["valid"], false);
    assert!(v["error"].is_null());
    let violations = v["violations"].as_array().unwrap();
    assert!(!violations.is_empty());
    assert!(violations[0]["path"].as_str().unwrap().contains("port"));
    assert!(violations[0]["keyword"].is_string());

    let out = validate("port: 8080\n", Some(schema)).unwrap();
    assert!(out.valid);
    assert_eq!(json(&out.to_text()), json(r#"{"valid": true, "violations": []}"#));

    let out = validate("a: 1\n", None).unwrap();
    assert_eq!(out.to_text(), r#"{"valid":true,"violations":[]}"#);
}

#[test]
fn validate_refuses_a_schema_it_cannot_use() {
    let err = validate("a: 1\n", Some("{not json")).unwrap_err();
    assert!(err.starts_with("schema is not JSON"), "{err}");
    let r = reply(Err(err), false);
    assert!(r.is_error && !r.structured);
    let err = validate("a: 1\n", Some("{\"type\": 12}")).unwrap_err();
    assert!(err.starts_with("schema: "), "{err}");
}

#[test]
fn verdicts_print_as_compact_json() {
    let out = parse_failure_verdict("bad \"thing\"".into(), Some((2, 7)));
    assert_eq!(
        out.to_text(),
        r#"{"valid":false,"error":"bad \"thing\"","line":2,"column":7,"violations":[]}"#
    );
    let out = parse_failure_verdict("x".into(), None);
    assert_eq!(out.line, Some(0));
    assert_eq!(out.column, Some(0));
    let out = schema_verdict(vec![
        Violation { path: "/port".into(), keyword: "maximum".into(), message: "too big".into() },
        Violation { path: "".into(), keyword: "required".into(), message: "m".into() },
    ]);
    assert!(!out.valid);
    assert_eq!(
        out.to_text(),
        r#"{"valid":false,"violations":[{"path":"/port","keyword":"maximum","message":"too big"},{"path":"","keyword":"required","message":"m"}]}"#
    );
}

#[test]
fn outputs_print_what_the_model_reads() {
    let out = SetOutput { file: "f.yml".into(), path: "a".into(), value: "1".into() };
    assert_eq!(
        out.to_string(),
        "set a = 1 in f.yml (lossless: comments and formatting preserved)"
    );
    let out = ParseOutput { documents: vec![json(r#"{"a": 1}"#)] };
    assert_eq!(out.to_text().unwrap(), "{\n  \"a\": 1\n}");
    assert_eq!(internal("boom"), "internal: boom");
}

#[test]
fn an_empty_value_is_filled_in_after_its_colon() {
    let out = edit("a:\nb: 1\n", "a", "2").unwrap();
    assert_eq!(out.yaml, "a: 2\nb: 1\n");
}

#[test]
fn get_returns_the_slice_as_written() {
    let out = get_from_source("f.yml", "a: \"x y\" # note\nb: 'z'\n", "a").unwrap();
    assert_eq!(out.value, "\"x y\"");
    let out = get_from_source("f.yml", "a: \"x y\" # note\nb: 'z'\n", "b").unwrap();
    assert_eq!(out.value, "'z'");
}

#[test]
fn json_strings_are_escaped_as_serde_json_writes_them() {
    for s in ["plain", "q\"b\\", "tab\tnl\ncr\rbs\u{8}ff\u{c}", "\u{1}\u{1f}\u{7f}", "é✓/"] {
        assert_eq!(quote_json(s), serde_json::to_string(s).unwrap(), "{s:?}");
    }
}

#[test]
fn an_edit_lands_on_the_entry_it_names() {
    let out = edit("a: 1\nb: 1\n", "b", "2").unwrap();
    assert_eq!(out.yaml, "a: 1\nb: 2\n");
    let out = edit("a: 1 # one\nb:  # empty\n", "b", "x").unwrap();
    assert_eq!(out.yaml, "a: 1 # one\nb: x  # empty\n");
}
