//! The prompt: a text template that teaches the host model the
//! recommended read-then-write workflow. It runs no tool and touches no
//! file.

use vstd::prelude::*;

verus! {

/// Arguments of `format_and_lint_yaml`.
#[derive(Debug)]
pub struct FormatAndLintArgs {
    /// Path to the YAML file to review. Optional; omit for a general
    /// workflow.
    pub file: Option<String>,
}

impl Default for FormatAndLintArgs {
    fn default() -> (r: Self)
        ensures
            r.file is None,
    {
        FormatAndLintArgs { file: None }
    }
}

/// The name of the one prompt.
pub open spec fn spec_prompt_name() -> Seq<char> {
    "format_and_lint_yaml"@
}

/// The names of the prompts, in the order they are listed.
pub const PROMPT_NAMES: [&'static str; 1] = ["format_and_lint_yaml"];

/// The names of the prompts, in the order they are listed.
pub fn prompt_names() -> (r: Vec<&'static str>)
    ensures
        r@.len() == 1,
        r@[0]@ == spec_prompt_name(),
{
    let mut v: Vec<&'static str> = Vec::new();
    v.push("format_and_lint_yaml");
    v
}

/// How the prompt names its subject: the file in backquotes when a
/// non-empty one is given, a generic phrase otherwise.
pub open spec fn prompt_target(file: Option<Seq<char>>) -> Seq<char> {
    match file {
        Some(f) => if f.len() > 0 {
            seq!['`'] + f + seq!['`']
        } else {
            "the YAML file"@
        },
        None => "the YAML file"@,
    }
}

/// The text before the subject.
pub open spec fn prompt_head() -> Seq<char> {
    "Help me format and lint "@
}

/// The text after the subject: the workflow itself.
pub open spec fn prompt_tail() -> Seq<char> {
    " without losing comments or formatting. First call noyalib_get on the paths you want to inspect to read the current values exactly as written. Propose a minimal set of fixes (indentation, key ordering, quoting, obviously wrong values). For each fix, call noyalib_set with the dotted/indexed path and the replacement YAML fragment: it rewrites only the touched span, so every comment, blank line and sibling entry is preserved byte-for-byte. Re-read with noyalib_get to confirm each change."@
}

/// The whole prompt text for an optional file.
pub open spec fn prompt_text(file: Option<Seq<char>>) -> Seq<char> {
    prompt_head() + prompt_target(file) + prompt_tail()
}

/// The view of an optional string slice.
pub open spec fn opt_view(file: Option<&str>) -> Option<Seq<char>> {
    match file {
        Some(f) => Some(f@),
        None => None,
    }
}

/// The `format_and_lint_yaml` prompt text, naming `file` when one is
/// given and it is not empty.
pub fn format_and_lint_yaml(file: Option<&str>) -> (r: String)
    ensures
        r@ == prompt_text(opt_view(file)),
{
    let mut out = String::from_str("Help me format and lint ");
    match file {
        Some(f) => {
            if f.unicode_len() > 0 {
                proof { reveal_strlit("`"); }
                out.append("`");
                out.append(f);
                out.append("`");
            } else {
                out.append("the YAML file");
            }
        },
        None => {
            out.append("the YAML file");
        },
    }
    out.append(
        " without losing comments or formatting. First call noyalib_get on the paths you want to inspect to read the current values exactly as written. Propose a minimal set of fixes (indentation, key ordering, quoting, obviously wrong values). For each fix, call noyalib_set with the dotted/indexed path and the replacement YAML fragment: it rewrites only the touched span, so every comment, blank line and sibling entry is preserved byte-for-byte. Re-read with noyalib_get to confirm each change.",
    );
    proof {
        match file {
            Some(f) => {
                if f@.len() > 0 {
                    assert(out@ =~= prompt_text(opt_view(file)));
                }
            },
            None => {},
        }
    }
    out
}

/// An empty file name is no file: the prompt is then the generic one.
pub proof fn empty_file_is_no_file()
    ensures
        prompt_text(Some(Seq::<char>::empty())) == prompt_text(None),
{
}

/// A non-empty file name appears in the prompt in backquotes, right
/// after the opening words.
pub proof fn named_file_is_quoted(f: Seq<char>)
    requires
        f.len() > 0,
    ensures
        prompt_text(Some(f)).subrange(
            prompt_head().len() as int,
            (prompt_head().len() + f.len() + 2) as int,
        ) == seq!['`'] + f + seq!['`'],
{
    let t = prompt_text(Some(f));
    assert(t.subrange(prompt_head().len() as int, (prompt_head().len() + f.len() + 2) as int) =~= seq!['`'] + f + seq!['`']);
}

} // verus!
