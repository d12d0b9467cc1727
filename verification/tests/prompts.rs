use noyalib_mcp::prompts::{format_and_lint_yaml, prompt_names, FormatAndLintArgs};

#[test]
fn without_a_file_the_text_is_generic() {
    let text = format_and_lint_yaml(None);
    assert!(text.contains("the YAML file"));
    assert!(text.contains("noyalib_get"));
    assert!(text.contains("noyalib_set"));
    assert_eq!(format_and_lint_yaml(Some("")), text);
}

#[test]
fn with_a_file_the_text_names_it() {
    let text = format_and_lint_yaml(Some("config.yml"));
    assert!(text.contains("`config.yml`"));
}

#[test]
fn the_prompt_text_is_exact() {
    let text = format_and_lint_yaml(Some("deploy.yaml"));
    assert!(text.starts_with("Help me format and lint `deploy.yaml` without losing comments"));
    assert!(text.ends_with("Re-read with noyalib_get to confirm each change."));
    assert!(!text.contains("the YAML file"));
}

#[test]
fn the_prompt_is_listed_by_name() {
    assert_eq!(prompt_names(), vec!["format_and_lint_yaml"]);
    assert!(FormatAndLintArgs::default().file.is_none());
}
