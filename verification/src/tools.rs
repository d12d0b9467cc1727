//! The six tools as plain functions, and their arguments and outputs.
//!
//! `get_from_source`, `set_in_source` and `set_multidoc_in_source` are
//! the file tools with the file already read: they take its text and
//! return what to write back. `parse`, `edit` and `validate` work on
//! YAML text given in the request. Every edit goes through noyalib's
//! lossless `cst::Document`, so the untouched bytes survive.

use vstd::prelude::*;

use crate::cst::{
    concat_all, cst_key_span, cst_parse_failure, cst_set, cst_stream, cst_value_at, document_text,
    document_texts, json_parse, yaml_documents, yaml_load, untagged, json_form,
    yaml_of_json, compiled_schema, schema_report, violation_parts,
    key_span, load_all, load_value, parse_document, parse_json, parse_stream, pretty_json,
    pretty_json_array, render, set_at, to_json, untag, value_at, json_to_yaml,
    compile_schema, schema_violations, violation_fields, edits_value, cst_value_span, json_pretty, json_pretty_array, is_slice_of, splices, splices_at,
    spliced_piece,
};
use crate::json::{json_literal, quote_json};
use crate::text::{decimal, decimal_text, has_prefix};

verus! {

// --- Outputs -------------------------------------------------------------

/// The value `noyalib_get` read.
#[derive(Debug, Clone, PartialEq, Eq)]
pub struct GetOutput {
    /// The source slice at the path, exactly as written: no re-quoting,
    /// no canonicalisation. Empty for a key with no value.
    pub value: String,
}

impl GetOutput {
    /// What the model reads: the value itself.
    pub fn to_string(&self) -> (r: String)
        ensures
            r@ == self.value@,
    {
        self.value.clone()
    }
}

/// What `noyalib_set` wrote.
#[derive(Debug, Clone, PartialEq, Eq)]
pub struct SetOutput {
    /// The file that was rewritten.
    pub file: String,
    /// The path that was set.
    pub path: String,
    /// The YAML fragment now at that path.
    pub value: String,
}

/// The sentence that reports a `noyalib_set`.
pub open spec fn set_sentence(file: Seq<char>, path: Seq<char>, value: Seq<char>) -> Seq<char> {
    "set "@ + path + " = "@ + value + " in "@ + file
        + " (lossless: comments and formatting preserved)"@
}

impl SetOutput {
    /// What the model reads: `set <path> = <value> in <file> (lossless:
    /// ...)`.
    pub fn to_string(&self) -> (r: String)
        ensures
            r@ == set_sentence(self.file@, self.path@, self.value@),
    {
        let mut s = String::from_str("set ");
        s.append(self.path.as_str());
        s.append(" = ");
        s.append(self.value.as_str());
        s.append(" in ");
        s.append(self.file.as_str());
        s.append(" (lossless: comments and formatting preserved)");
        s
    }
}

/// What `noyalib_set_multidoc` wrote.
#[derive(Debug, Clone, PartialEq, Eq)]
pub struct SetMultidocOutput {
    /// The file that was rewritten.
    pub file: String,
    /// The zero-based index of the document that changed.
    pub doc_index: usize,
    /// The path that was set, within that document.
    pub path: String,
    /// The YAML fragment now at that path.
    pub value: String,
}

/// The sentence that reports a `noyalib_set_multidoc`.
pub open spec fn set_multidoc_sentence(
    file: Seq<char>,
    doc_index: nat,
    path: Seq<char>,
    value: Seq<char>,
) -> Seq<char> {
    "set "@ + path + " = "@ + value + " in document "@ + decimal(doc_index) + " of "@ + file
        + " (lossless: other documents, comments and formatting preserved)"@
}

impl SetMultidocOutput {
    /// What the model reads: `set <path> = <value> in document <n> of
    /// <file> (lossless: ...)`.
    pub fn to_string(&self) -> (r: String)
        ensures
            r@ == set_multidoc_sentence(self.file@, self.doc_index as nat, self.path@, self.value@),
    {
        let mut s = String::from_str("set ");
        s.append(self.path.as_str());
        s.append(" = ");
        s.append(self.value.as_str());
        s.append(" in document ");
        let n = decimal_text(self.doc_index);
        s.append(n.as_str());
        s.append(" of ");
        s.append(self.file.as_str());
        s.append(" (lossless: other documents, comments and formatting preserved)");
        s
    }
}

/// The JSON data model of the YAML `noyalib_parse` was given.
#[derive(Debug, Clone, PartialEq, Eq)]
pub struct ParseOutput {
    /// One JSON value per document of the stream, custom tags stripped.
    /// A single-document text gives one element.
    pub documents: Vec<serde_json::Value>,
}

impl ParseOutput {
    /// The text the model reads: a single document pretty-printed as
    /// itself, any other number of documents as the pretty-printed array
    /// of them; `None` when serde_json cannot print it.
    pub open spec fn text(&self) -> Option<Seq<char>> {
        if self.documents@.len() == 1 {
            json_pretty(self.documents@[0])
        } else {
            json_pretty_array(self.documents@)
        }
    }

    /// What the model reads: a single document pretty-printed as itself,
    /// a stream as an array, the projection the YAML test suite expects.
    /// `None` when serde_json cannot print it.
    pub fn to_text(&self) -> (r: Option<String>)
        ensures
            match self.text() {
                Some(t) => r matches Some(s) && s@ == t,
                None => r is None,
            },
    {
        if self.documents.len() == 1 {
            pretty_json(&self.documents[0])
        } else {
            pretty_json_array(&self.documents)
        }
    }
}

/// The text `noyalib_edit` produced.
#[derive(Debug, Clone, PartialEq, Eq)]
pub struct EditOutput {
    /// The whole YAML text with the one value replaced.
    pub yaml: String,
}

impl EditOutput {
    /// What the model reads: the edited text.
    pub fn to_string(&self) -> (r: String)
        ensures
            r@ == self.yaml@,
    {
        self.yaml.clone()
    }
}

/// One JSON Schema violation.
#[derive(Debug, Clone, PartialEq, Eq)]
pub struct Violation {
    /// The RFC 6901 path of the offending value.
    pub path: String,
    /// The schema keyword that failed.
    pub keyword: String,
    /// What is wrong with it.
    pub message: String,
}

/// The verdict of `noyalib_validate`.
#[derive(Debug, Clone, PartialEq, Eq)]
pub struct ValidateOutput {
    /// Whether the text parses and, when a schema was given, satisfies it.
    pub valid: bool,
    /// The parse error, when the text does not parse.
    pub error: Option<String>,
    /// The line of the parse error, when there is one.
    pub line: Option<usize>,
    /// The column of the parse error, when there is one.
    pub column: Option<usize>,
    /// Every schema violation; empty when the document is valid or no
    /// schema was given.
    pub violations: Vec<Violation>,
}

// --- Arguments -----------------------------------------------------------

/// Arguments of `noyalib_get`.
#[derive(Debug)]
pub struct GetArgs {
    /// Path to the YAML file on disk.
    pub file: String,
    /// Dotted/indexed path into the YAML, e.g. `server.host` or
    /// `items[0].name`.
    pub path: String,
}

/// Arguments of `noyalib_set`.
#[derive(Debug)]
pub struct SetArgs {
    /// Path to the YAML file on disk.
    pub file: String,
    /// Dotted/indexed path into the YAML.
    pub path: String,
    /// Replacement value as a YAML fragment (e.g. `0.0.2`, `"hello"`,
    /// `[1, 2, 3]`). Must parse in the target position; the document is
    /// left unchanged on parse error.
    pub value: String,
}

/// Arguments of `noyalib_set_multidoc`.
#[derive(Debug)]
pub struct SetMultidocArgs {
    /// Path to the multi-document YAML file on disk.
    pub file: String,
    /// Zero-based index of the document within the `---`-separated
    /// stream to modify.
    pub doc_index: usize,
    /// Dotted/indexed path into the selected document.
    pub path: String,
    /// Replacement value as a YAML fragment. Must parse in the target
    /// position; the file is left unchanged on parse error.
    pub value: String,
}

/// Arguments of `noyalib_parse`.
#[derive(Debug)]
pub struct ParseArgs {
    /// The YAML text to parse.
    pub yaml: String,
}

/// Arguments of `noyalib_edit`.
#[derive(Debug)]
pub struct EditArgs {
    /// The YAML text to edit.
    pub yaml: String,
    /// Dotted/indexed path, e.g. `server.port` or `items[0].name`.
    pub path: String,
    /// Replacement value as a YAML fragment.
    pub value: String,
}

/// Arguments of `noyalib_validate`.
#[derive(Debug)]
pub struct ValidateArgs {
    /// The YAML text to validate.
    pub yaml: String,
    /// A JSON Schema, as JSON text (optional).
    pub schema: Option<String>,
}

// --- Messages ------------------------------------------------------------

/// `read <file>: <reason>`: the file could not be read.
pub open spec fn read_failure_text(file: Seq<char>, reason: Seq<char>) -> Seq<char> {
    "read "@ + file + ": "@ + reason
}

/// `write <file>: <reason>`: the file could not be written.
pub open spec fn write_failure_text(file: Seq<char>, reason: Seq<char>) -> Seq<char> {
    "write "@ + file + ": "@ + reason
}

/// `parse <file>: <reason>`: the file is not YAML the library accepts.
pub open spec fn parse_file_failure_text(file: Seq<char>, reason: Seq<char>) -> Seq<char> {
    "parse "@ + file + ": "@ + reason
}

/// `parse: <reason>`: the request's YAML text does not parse.
pub open spec fn parse_failure_text(reason: Seq<char>) -> Seq<char> {
    "parse: "@ + reason
}

/// `set <path> = <value>: <reason>`: the fragment cannot be applied.
pub open spec fn set_failure_text(path: Seq<char>, value: Seq<char>, reason: Seq<char>) -> Seq<
    char,
> {
    "set "@ + path + " = "@ + value + ": "@ + reason
}

/// `path not found in <file>: <path>`.
pub open spec fn not_found_text(file: Seq<char>, path: Seq<char>) -> Seq<char> {
    "path not found in "@ + file + ": "@ + path
}

/// `doc_index <n> out of range: stream has <m> document(s)`.
pub open spec fn out_of_range_text(doc_index: nat, count: nat) -> Seq<char> {
    "doc_index "@ + decimal(doc_index) + " out of range: stream has "@ + decimal(count)
        + " document(s)"@
}

/// `internal: <reason>`: an error no request can provoke.
pub open spec fn internal_text(reason: Seq<char>) -> Seq<char> {
    "internal: "@ + reason
}

fn three(a: &str, b: &str, c: &str) -> (r: String)
    ensures
        r@ == a@ + b@ + c@,
{
    let mut s = String::from_str(a);
    s.append(b);
    s.append(c);
    s
}

/// The message for a file that could not be read.
pub fn read_failure(file: &str, reason: &str) -> (r: String)
    ensures
        r@ == read_failure_text(file@, reason@),
{
    let mut s = three("read ", file, ": ");
    s.append(reason);
    s
}

/// The message for a file that could not be written.
pub fn write_failure(file: &str, reason: &str) -> (r: String)
    ensures
        r@ == write_failure_text(file@, reason@),
{
    let mut s = three("write ", file, ": ");
    s.append(reason);
    s
}

fn parse_file_failure(file: &str, reason: &str) -> (r: String)
    ensures
        r@ == parse_file_failure_text(file@, reason@),
{
    let mut s = three("parse ", file, ": ");
    s.append(reason);
    s
}

fn set_failure(path: &str, value: &str, reason: &str) -> (r: String)
    ensures
        r@ == set_failure_text(path@, value@, reason@),
{
    let mut s = three("set ", path, " = ");
    s.append(value);
    s.append(": ");
    s.append(reason);
    s
}

/// The message for an error no request can provoke (a JSON conversion
/// of a value the parser already accepted).
pub fn internal(reason: &str) -> (r: String)
    ensures
        r@ == internal_text(reason@),
{
    let mut s = String::from_str("internal: ");
    s.append(reason);
    s
}


// --- The functions -------------------------------------------------------

/// What `noyalib_get` answers for `path` in a file named `file` whose
/// text is `source`: the source slice of the value, the empty slice for
/// a key with no value, or the failure's message.
pub open spec fn get_outcome(file: Seq<char>, source: Seq<char>, path: Seq<char>) -> Result<
    Seq<char>,
    Seq<char>,
> {
    match cst_parse_failure(source) {
        Some(e) => Err(parse_file_failure_text(file, e)),
        None => match cst_value_at(source, path) {
            Some(v) => Ok(v),
            None => if cst_key_span(source, path) is Some {
                Ok(Seq::empty())
            } else {
                Err(not_found_text(file, path))
            },
        },
    }
}

/// Read the value at `path` in the YAML text `source` of the file
/// `file`.
///
/// The value is the source slice, exactly as written. A key with no
/// value (`key:`) reads as the empty string rather than as a missing
/// path.
///
/// # Errors
///
/// The text does not parse, or has no such path. The message says
/// which.
pub fn get_from_source(file: &str, source: &str, path: &str) -> (r: Result<GetOutput, String>)
    ensures
        match get_outcome(file@, source@, path@) {
            Ok(v) => r matches Ok(out) && out.value@ == v,
            Err(m) => r matches Err(e) && e@ == m,
        },
        r matches Ok(out) ==> is_slice_of(out.value@, source@),
        r matches Ok(out) ==> match cst_value_span(source@, path@) {
            Some((s, e)) => out.value@ == source@.subrange(s, e),
            None => out.value@.len() == 0,
        },
        cst_parse_failure(source@) is None ==> (cst_value_at(source@, path@) matches Some(v) ==> (
        r matches Ok(out) && out.value@ == v)),
{
    let doc = match parse_document(source) {
        Ok(d) => d,
        Err(e) => {
            return Err(parse_file_failure(file, e.as_str()));
        },
    };
    match value_at(&doc, path) {
        Some(v) => Ok(GetOutput { value: v }),
        None => {
            if key_span(&doc, path).is_some() {
                assert(source@.subrange(0, 0) =~= Seq::<char>::empty());
                Ok(GetOutput { value: String::new() })
            } else {
                let mut m = three("path not found in ", file, ": ");
                m.append(path);
                Err(m)
            }
        },
    }
}

/// What `value` set at `path` makes of the YAML text `source` of the
/// file `file`: the whole new text, or the failure's message.
pub open spec fn set_outcome(
    file: Seq<char>,
    source: Seq<char>,
    path: Seq<char>,
    value: Seq<char>,
) -> Result<Seq<char>, Seq<char>> {
    match cst_parse_failure(source) {
        Some(e) => Err(parse_file_failure_text(file, e)),
        None => match cst_set(source, path, value) {
            Ok(t) => Ok(t),
            Err(e) => Err(set_failure_text(path, value, e)),
        },
    }
}

/// Set the value at `path` in the YAML text `source` of the file `file`
/// to the fragment `value`, rewriting only the touched span. Returns the
/// text to write back, and the report.
///
/// # Errors
///
/// The text does not parse, or the fragment cannot be applied at the
/// path. Nothing is to be written then.
pub fn set_in_source(file: &str, source: &str, path: &str, value: &str) -> (r: Result<
    (String, SetOutput),
    String,
>)
    ensures
        match set_outcome(file@, source@, path@, value@) {
            Ok(t) => r matches Ok((text, out)) && text@ == t && out.file@ == file@ && out.path@
                == path@ && out.value@ == value@,
            Err(m) => r matches Err(e) && e@ == m,
        },
        r matches Ok((text, _)) ==> splices(source@, value@, text@),
        r matches Ok((text, _)) ==> edits_value(source@, path@, value@, text@),
        cst_parse_failure(source@) is None ==> (cst_set(source@, path@, value@) matches Ok(t) ==> (
        r matches Ok((text, _)) && text@ == t)),
        r matches Ok((text, _)) ==> (cst_value_span(source@, path@) matches Some((s, e)) ==> (s
            < e && source@.subrange(s, e) == value@ ==> text@ == source@)),
{
    let mut doc = match parse_document(source) {
        Ok(d) => d,
        Err(e) => {
            return Err(parse_file_failure(file, e.as_str()));
        },
    };
    match set_at(&mut doc, path, value) {
        Ok(()) => {},
        Err(e) => {
            return Err(set_failure(path, value, e.as_str()));
        },
    }
    let text = render(&doc);
    Ok(
        (
            text,
            SetOutput {
                file: String::from_str(file),
                path: String::from_str(path),
                value: String::from_str(value),
            },
        ),
    )
}

/// What `value` set at `path` in document `doc_index` makes of the YAML
/// stream `source` of the file `file`: the whole new text, or the
/// failure's message.
pub open spec fn set_multidoc_outcome(
    file: Seq<char>,
    source: Seq<char>,
    doc_index: nat,
    path: Seq<char>,
    value: Seq<char>,
) -> Result<Seq<char>, Seq<char>> {
    match cst_stream(source) {
        Err(e) => Err(parse_file_failure_text(file, e)),
        Ok(texts) => if doc_index >= texts.len() {
            Err(out_of_range_text(doc_index, texts.len()))
        } else {
            match cst_set(texts[doc_index as int], path, value) {
                Ok(t) => Ok(concat_all(texts.update(doc_index as int, t))),
                Err(e) => Err(set_failure_text(path, value, e)),
            }
        },
    }
}

/// The text of `a + b`, run together, is that of `a` followed by that of
/// `b`.
proof fn concat_all_append(a: Seq<Seq<char>>, b: Seq<Seq<char>>)
    ensures
        concat_all(a + b) == concat_all(a) + concat_all(b),
    decreases b.len(),
{
    if b.len() == 0 {
        assert(a + b =~= a);
        assert(concat_all(b) =~= Seq::<char>::empty());
        assert(concat_all(a) + concat_all(b) =~= concat_all(a));
    } else {
        concat_all_append(a, b.drop_last());
        assert((a + b).drop_last() =~= a + b.drop_last());
        assert((a + b).last() == b.last());
        assert(concat_all(a) + concat_all(b) =~= concat_all(a) + concat_all(b.drop_last()) + b.last());
    }
}

/// The run-together text of `texts` splits around the `i`th part.
proof fn concat_all_around(texts: Seq<Seq<char>>, i: int)
    requires
        0 <= i < texts.len(),
    ensures
        concat_all(texts) == concat_all(texts.take(i)) + texts[i] + concat_all(
            texts.skip(i + 1),
        ),
{
    let before = texts.take(i);
    let after = texts.skip(i + 1);
    assert(texts =~= before + seq![texts[i]] + after);
    concat_all_append(before + seq![texts[i]], after);
    concat_all_append(before, seq![texts[i]]);
    assert(concat_all(seq![texts[i]]) =~= texts[i]) by {
        assert(seq![texts[i]].drop_last() =~= Seq::<Seq<char>>::empty());
        assert(concat_all(Seq::<Seq<char>>::empty()) =~= Seq::<char>::empty());
        assert(seq![texts[i]].last() == texts[i]);
    }
}

/// An edit of one piece of a text is an edit of the whole text: the span
/// moves by the length of what comes before the piece.
proof fn splices_in_context(
    before: Seq<char>,
    piece: Seq<char>,
    after: Seq<char>,
    fragment: Seq<char>,
    new_piece: Seq<char>,
)
    requires
        splices(piece, fragment, new_piece),
    ensures
        splices(before + piece + after, fragment, before + new_piece + after),
{
    let (s, e) = choose|s: int, e: int| splices_at(piece, fragment, new_piece, s, e);
    let whole = before + piece + after;
    let b = before.len() as int;
    assert(whole.subrange(0, b + s) =~= before + piece.subrange(0, s));
    assert(whole.subrange(b + e, whole.len() as int) =~= piece.subrange(e, piece.len() as int)
        + after);
    assert(before + new_piece + after =~= whole.subrange(0, b + s) + spliced_piece(
        fragment,
        b + s == b + e,
    ) + whole.subrange(b + e, whole.len() as int));
    assert(splices_at(whole, fragment, before + new_piece + after, b + s, b + e));
}

/// [`set_in_source`] for document `doc_index` of a `---`-separated
/// stream. Every other document, and every separator, is kept byte for
/// byte: the new text is the old one with only the bytes of that one
/// document replaced.
///
/// # Errors
///
/// As [`set_in_source`], or the index is out of range. Nothing is to be
/// written then.
pub fn set_multidoc_in_source(
    file: &str,
    source: &str,
    doc_index: usize,
    path: &str,
    value: &str,
) -> (r: Result<(String, SetMultidocOutput), String>)
    ensures
        match set_multidoc_outcome(file@, source@, doc_index as nat, path@, value@) {
            Ok(t) => r matches Ok((text, out)) && text@ == t && out.file@ == file@ && out.doc_index
                == doc_index && out.path@ == path@ && out.value@ == value@,
            Err(m) => r matches Err(e) && e@ == m,
        },
        r matches Ok((text, _)) ==> {
            &&& cst_stream(source@) matches Ok(texts)
            &&& doc_index < texts.len()
            &&& cst_set(texts[doc_index as int], path@, value@) matches Ok(new_doc)
            &&& edits_value(texts[doc_index as int], path@, value@, new_doc)
            &&& source@ == concat_all(texts.take(doc_index as int)) + texts[doc_index as int]
                + concat_all(texts.skip(doc_index + 1))
            &&& text@ == concat_all(texts.take(doc_index as int)) + new_doc + concat_all(
                texts.skip(doc_index + 1),
            )
        },
        r matches Ok((text, _)) ==> splices(source@, value@, text@),
        cst_stream(source@) matches Ok(texts) ==> (doc_index < texts.len() ==> (cst_set(
            texts[doc_index as int],
            path@,
            value@,
        ) matches Ok(new_doc) ==> (r matches Ok((text, _)) && text@ == concat_all(
            texts.take(doc_index as int),
        ) + new_doc + concat_all(texts.skip(doc_index + 1))))),
{
    let mut docs = match parse_stream(source) {
        Ok(ds) => ds,
        Err(e) => {
            return Err(parse_file_failure(file, e.as_str()));
        },
    };
    let ghost texts = document_texts(docs@);
    let count = docs.len();
    if doc_index >= count {
        let mut m = String::from_str("doc_index ");
        let i = decimal_text(doc_index);
        m.append(i.as_str());
        m.append(" out of range: stream has ");
        let n = decimal_text(count);
        m.append(n.as_str());
        m.append(" document(s)");
        return Err(m);
    }
    let mut doc = docs.remove(doc_index);
    assert(document_text(doc) == texts[doc_index as int]);
    match set_at(&mut doc, path, value) {
        Ok(()) => {},
        Err(e) => {
            return Err(set_failure(path, value, e.as_str()));
        },
    }
    let ghost new_doc = document_text(doc);
    assert(splices(texts[doc_index as int], value@, new_doc));
    docs.insert(doc_index, doc);
    let ghost edited = texts.update(doc_index as int, new_doc);
    assert(document_texts(docs@) =~= edited);
    let mut out = String::new();
    let mut k: usize = 0;
    while k < docs.len()
        invariant
            k <= docs.len(),
            document_texts(docs@) == edited,
            out@ == concat_all(edited.take(k as int)),
        decreases docs.len() - k,
    {
        let piece = render(&docs[k]);
        out.append(piece.as_str());
        assert(edited.take(k + 1).drop_last() =~= edited.take(k as int));
        k = k + 1;
    }
    assert(edited.take(docs.len() as int) =~= edited);
    proof {
        concat_all_around(texts, doc_index as int);
        concat_all_around(edited, doc_index as int);
        assert(edited.take(doc_index as int) =~= texts.take(doc_index as int));
        assert(edited.skip(doc_index + 1) =~= texts.skip(doc_index + 1));
        splices_in_context(
            concat_all(texts.take(doc_index as int)),
            texts[doc_index as int],
            concat_all(texts.skip(doc_index + 1)),
            value@,
            new_doc,
        );
    }
    Ok(
        (
            out,
            SetMultidocOutput {
                file: String::from_str(file),
                doc_index,
                path: String::from_str(path),
                value: String::from_str(value),
            },
        ),
    )
}


/// What `value` set at `path` makes of the YAML text `yaml`: the whole
/// new text, or the failure's message.
pub open spec fn edit_outcome(yaml: Seq<char>, path: Seq<char>, value: Seq<char>) -> Result<
    Seq<char>,
    Seq<char>,
> {
    match cst_parse_failure(yaml) {
        Some(e) => Err(parse_failure_text(e)),
        None => match cst_set(yaml, path, value) {
            Ok(t) => Ok(t),
            Err(e) => Err(set_failure_text(path, value, e)),
        },
    }
}

/// Set one value in YAML text and return the whole edited text. Nothing
/// on disk is touched.
///
/// # Errors
///
/// The text does not parse, or the fragment cannot be applied at the
/// path.
pub fn edit(yaml: &str, path: &str, value: &str) -> (r: Result<EditOutput, String>)
    ensures
        match edit_outcome(yaml@, path@, value@) {
            Ok(t) => r matches Ok(out) && out.yaml@ == t,
            Err(m) => r matches Err(e) && e@ == m,
        },
        r matches Ok(out) ==> splices(yaml@, value@, out.yaml@),
        r matches Ok(out) ==> edits_value(yaml@, path@, value@, out.yaml@),
        cst_parse_failure(yaml@) is None ==> (cst_set(yaml@, path@, value@) matches Ok(t) ==> (
        r matches Ok(out) && out.yaml@ == t)),
        r matches Ok(out) ==> (cst_value_span(yaml@, path@) matches Some((s, e)) ==> (s < e
            && yaml@.subrange(s, e) == value@ ==> out.yaml@ == yaml@)),
{
    let mut doc = match parse_document(yaml) {
        Ok(d) => d,
        Err(e) => {
            let mut m = String::from_str("parse: ");
            m.append(e.as_str());
            return Err(m);
        },
    };
    match set_at(&mut doc, path, value) {
        Ok(()) => {},
        Err(e) => {
            return Err(set_failure(path, value, e.as_str()));
        },
    }
    Ok(EditOutput { yaml: render(&doc) })
}

/// Editing a file and editing its text agree: `noyalib_set` writes back
/// exactly the text `noyalib_edit` returns for the same text, path and
/// fragment, and one refuses exactly when the other does; the refusal
/// of the fragment is worded the same by both.
pub proof fn set_agrees_with_edit(
    file: Seq<char>,
    source: Seq<char>,
    path: Seq<char>,
    value: Seq<char>,
)
    ensures
        set_outcome(file, source, path, value) is Ok <==> edit_outcome(source, path, value) is Ok,
        set_outcome(file, source, path, value) matches Ok(t) ==> edit_outcome(
            source,
            path,
            value,
        ) == Ok::<Seq<char>, Seq<char>>(t),
        cst_parse_failure(source) is None ==> (set_outcome(file, source, path, value) matches Err(
            m,
        ) ==> edit_outcome(source, path, value) == Err::<Seq<char>, Seq<char>>(m)),
{
}

/// Setting a value refuses only what noyalib refuses: on a text that
/// parses, `noyalib_set` and `noyalib_edit` succeed whenever noyalib's
/// `Document::set` accepts the fragment (re-setting the value already
/// there included), and their new text is exactly noyalib's.
pub proof fn set_refuses_only_what_noyalib_refuses(
    file: Seq<char>,
    source: Seq<char>,
    path: Seq<char>,
    value: Seq<char>,
    t: Seq<char>,
)
    requires
        cst_parse_failure(source) is None,
        cst_set(source, path, value) == Ok::<Seq<char>, Seq<char>>(t),
    ensures
        set_outcome(file, source, path, value) == Ok::<Seq<char>, Seq<char>>(t),
        edit_outcome(source, path, value) == Ok::<Seq<char>, Seq<char>>(t),
{
}

/// Writing back the value already at a path changes nothing: when an edit
/// replaces the value's span by the very text it holds, the new text is
/// the old one, byte for byte.
pub proof fn rewriting_a_value_keeps_the_text(
    text: Seq<char>,
    path: Seq<char>,
    value: Seq<char>,
    t: Seq<char>,
    s: int,
    e: int,
)
    requires
        edits_value(text, path, value, t),
        cst_value_span(text, path) == Some((s, e)),
        s < e,
        text.subrange(s, e) == value,
    ensures
        t == text,
{
    assert(text =~= text.subrange(0, s) + text.subrange(s, e) + text.subrange(e, text.len() as int));
}

/// Setting a value in one document of a stream succeeds whenever the
/// stream parses, the index is in range and noyalib's `Document::set`
/// accepts the fragment in that document, whatever the fragment; the
/// new text is the documents before, that document as noyalib edited
/// it, and the documents after.
pub proof fn set_multidoc_refuses_only_what_noyalib_refuses(
    file: Seq<char>,
    source: Seq<char>,
    doc_index: nat,
    path: Seq<char>,
    value: Seq<char>,
    texts: Seq<Seq<char>>,
    new_doc: Seq<char>,
)
    requires
        cst_stream(source) == Ok::<Seq<Seq<char>>, Seq<char>>(texts),
        doc_index < texts.len(),
        cst_set(texts[doc_index as int], path, value) == Ok::<Seq<char>, Seq<char>>(new_doc),
    ensures
        set_multidoc_outcome(file, source, doc_index, path, value) == Ok::<Seq<char>, Seq<char>>(
            concat_all(texts.take(doc_index as int)) + new_doc + concat_all(
                texts.skip(doc_index as int + 1),
            ),
        ),
{
    let i = doc_index as int;
    let edited = texts.update(i, new_doc);
    concat_all_around(edited, i);
    assert(edited.take(i) =~= texts.take(i));
    assert(edited.skip(i + 1) =~= texts.skip(i + 1));
}

/// Reading a path that has a value gives that value: on a text that
/// parses, whenever noyalib's `Document::get` finds a value at `path`
/// (a key, an index or both), `noyalib_get` answers it.
pub proof fn get_answers_every_value(file: Seq<char>, source: Seq<char>, path: Seq<char>, v: Seq<char>)
    requires
        cst_parse_failure(source) is None,
        cst_value_at(source, path) == Some(v),
    ensures
        get_outcome(file, source, path) == Ok::<Seq<char>, Seq<char>>(v),
{
}

/// Parsing keeps the documents one for one, every one with its tags
/// stripped: when the text loads as the values `vs`, a successful answer
/// has one JSON value per document, the i-th being the JSON form of the
/// untagged i-th value; and it succeeds whenever every untagged value
/// has a JSON form.
pub proof fn parse_strips_the_tags_of_every_document(yaml: Seq<char>, vs: Seq<noyalib::Value>)
    requires
        yaml_documents(yaml) == Ok::<Seq<noyalib::Value>, Seq<char>>(vs),
    ensures
        parse_outcome(yaml) matches Ok(js) ==> js.len() == vs.len() && forall|i: int|
            0 <= i < vs.len() ==> json_form(untagged(#[trigger] vs[i])) == Ok::<
                serde_json::Value,
                Seq<char>,
            >(js[i]),
        (forall|i: int| 0 <= i < vs.len() ==> json_form(untagged(#[trigger] vs[i])) is Ok)
            ==> parse_outcome(yaml) is Ok,
{
    lemma_json_documents(vs);
}

/// A schema verdict is valid exactly when it lists no violation, and it
/// lists exactly the violations found.
pub proof fn a_verdict_is_valid_exactly_without_violations(out: ValidateOutput, found: Seq<Violation>)
    requires
        is_schema_verdict(out, found),
    ensures
        out.valid <==> found.len() == 0,
        out.violations@ == found,
        out.error is None,
{
}

/// Getting a value never fails for a key that is present: when the
/// text parses and the path names a mapping key, the answer is a value
/// (the empty one for an implicit null), not "path not found".
pub proof fn present_key_reads_a_value(file: Seq<char>, source: Seq<char>, path: Seq<char>)
    requires
        cst_parse_failure(source) is None,
        cst_key_span(source, path) is Some,
    ensures
        get_outcome(file, source, path) is Ok,
{
}

/// The JSON forms of the untagged values `vs`, in order, or the message
/// of the first that has none.
pub open spec fn json_documents(vs: Seq<noyalib::Value>) -> Result<
    Seq<serde_json::Value>,
    Seq<char>,
>
    decreases vs.len(),
{
    if vs.len() == 0 {
        Ok(Seq::empty())
    } else {
        match json_form(untagged(vs[0])) {
            Err(e) => Err(e),
            Ok(j) => match json_documents(vs.drop_first()) {
                Ok(rest) => Ok(seq![j] + rest),
                Err(e) => Err(e),
            },
        }
    }
}

/// `json_documents` keeps the documents one for one: each result is the
/// JSON form of the untagged value at the same place, and it fails only
/// when one of them has no JSON form.
proof fn lemma_json_documents(vs: Seq<noyalib::Value>)
    ensures
        json_documents(vs) matches Ok(js) ==> js.len() == vs.len() && forall|i: int|
            0 <= i < vs.len() ==> json_form(untagged(#[trigger] vs[i])) == Ok::<
                serde_json::Value,
                Seq<char>,
            >(js[i]),
        (forall|i: int| 0 <= i < vs.len() ==> json_form(untagged(#[trigger] vs[i])) is Ok)
            ==> json_documents(vs) is Ok,
    decreases vs.len(),
{
    if vs.len() > 0 {
        let rest = vs.drop_first();
        lemma_json_documents(rest);
        assert forall|i: int| 0 <= i < rest.len() implies #[trigger] rest[i] == vs[i + 1] by {}
        match json_documents(vs) {
            Ok(js) => {
                match json_form(untagged(vs[0])) {
                    Ok(j) => {
                        match json_documents(rest) {
                            Ok(more) => {
                                assert(js == seq![j] + more);
                                assert forall|i: int| 0 <= i < vs.len() implies json_form(
                                    untagged(#[trigger] vs[i]),
                                ) == Ok::<serde_json::Value, Seq<char>>(js[i]) by {
                                    if i > 0 {
                                        assert(vs[i] == rest[i - 1]);
                                    }
                                }
                            },
                            Err(_) => {},
                        }
                    },
                    Err(_) => {},
                }
            },
            Err(_) => {
                if forall|i: int| 0 <= i < vs.len() ==> json_form(untagged(#[trigger] vs[i])) is Ok {
                    assert(json_form(untagged(vs[0])) is Ok);
                    assert forall|i: int| 0 <= i < rest.len() implies json_form(
                        untagged(#[trigger] rest[i]),
                    ) is Ok by {
                        assert(rest[i] == vs[i + 1]);
                    }
                }
            },
        }
    }
}

/// What `noyalib_parse` answers for `yaml`: the JSON form of each of its
/// documents, tags stripped, in order; or the failure's message.
pub open spec fn parse_outcome(yaml: Seq<char>) -> Result<Seq<serde_json::Value>, Seq<char>> {
    match yaml_documents(yaml) {
        Err(e) => Err(parse_failure_text(e)),
        Ok(vs) => match json_documents(vs) {
            Ok(js) => Ok(js),
            Err(e) => Err(internal_text(e)),
        },
    }
}

/// Parse YAML text into its JSON data model, one value per document,
/// custom tags stripped, in order. Nothing on disk is read.
///
/// # Errors
///
/// The text does not parse under the library's limits (`parse: ...`),
/// or a loaded value has no JSON form (`internal: ...`, which no text
/// the parser accepts should provoke).
pub fn parse(yaml: &str) -> (r: Result<ParseOutput, String>)
    ensures
        match parse_outcome(yaml@) {
            Ok(js) => r matches Ok(out) && out.documents@ == js,
            Err(m) => r matches Err(e) && e@ == m,
        },
        yaml_documents(yaml@) matches Ok(vs) ==> (r matches Ok(out) ==> out.documents@.len()
            == vs.len() && forall|i: int|
            0 <= i < vs.len() ==> json_form(untagged(#[trigger] vs[i])) == Ok::<
                serde_json::Value,
                Seq<char>,
            >(out.documents@[i])),
        yaml_documents(yaml@) matches Ok(vs) ==> ((forall|i: int|
            0 <= i < vs.len() ==> json_form(untagged(#[trigger] vs[i])) is Ok) ==> r is Ok),
{
    let mut docs = match load_all(yaml) {
        Ok(vs) => vs,
        Err(e) => {
            let mut m = String::from_str("parse: ");
            m.append(e.as_str());
            return Err(m);
        },
    };
    let ghost all = docs@;
    proof {
        lemma_json_documents(all);
    }
    let mut documents: Vec<serde_json::Value> = Vec::new();
    // Take the values front to back.
    while docs.len() > 0
        invariant
            yaml_documents(yaml@) == Ok::<Seq<noyalib::Value>, Seq<char>>(all),
            json_documents(all) == match json_documents(docs@) {
                Ok(rest) => Ok::<Seq<serde_json::Value>, Seq<char>>(documents@ + rest),
                Err(e) => Err(e),
            },
        decreases docs.len(),
    {
        let ghost before = docs@;
        let v = docs.remove(0);
        assert(before.drop_first() =~= docs@);
        assert(before[0] == v);
        let u = untag(v);
        match to_json(u) {
            Ok(j) => {
                proof {
                    match json_documents(docs@) {
                        Ok(rest) => {
                            assert(documents@ + (seq![j] + rest) =~= documents@.push(j) + rest);
                        },
                        Err(_) => {},
                    }
                }
                documents.push(j);
            },
            Err(e) => {
                proof {
                    lemma_json_documents(all);
                }
                return Err(internal(e.as_str()));
            },
        }
    }
    assert(json_documents(docs@) == Ok::<Seq<serde_json::Value>, Seq<char>>(Seq::empty()));
    assert(documents@ + Seq::<serde_json::Value>::empty() =~= documents@);
    Ok(ParseOutput { documents })
}


// --- The verdict ---------------------------------------------------------

/// The line or column of an optional location: 0 when there is none.
pub open spec fn line_of(location: Option<(usize, usize)>) -> usize {
    match location {
        Some((line, _)) => line,
        None => 0,
    }
}

/// The column of an optional location: 0 when there is none.
pub open spec fn column_of(location: Option<(usize, usize)>) -> usize {
    match location {
        Some((_, column)) => column,
        None => 0,
    }
}

/// `out` is the verdict on a text that does not parse: invalid, with
/// the parse error, its line and its column (0 and 0 when the error has
/// no location), and no violations.
pub open spec fn is_parse_failure_verdict(
    out: ValidateOutput,
    message: Seq<char>,
    location: Option<(usize, usize)>,
) -> bool {
    &&& !out.valid
    &&& out.error matches Some(e) && e@ == message
    &&& out.line == Some(line_of(location))
    &&& out.column == Some(column_of(location))
    &&& out.violations@.len() == 0
}

/// `out` is the verdict on a text that parses, checked against the
/// violations `found`: valid exactly when there are none, and no parse
/// error.
pub open spec fn is_schema_verdict(out: ValidateOutput, found: Seq<Violation>) -> bool {
    &&& out.valid == (found.len() == 0)
    &&& out.error is None
    &&& out.line is None
    &&& out.column is None
    &&& out.violations@ == found
}

/// The verdict on a text that does not parse.
pub fn parse_failure_verdict(message: String, location: Option<(usize, usize)>) -> (r:
    ValidateOutput)
    ensures
        is_parse_failure_verdict(r, message@, location),
{
    let (line, column) = match location {
        Some((l, c)) => (l, c),
        None => (0, 0),
    };
    ValidateOutput {
        valid: false,
        error: Some(message),
        line: Some(line),
        column: Some(column),
        violations: Vec::new(),
    }
}

/// The verdict on a text that parses, given the schema violations found
/// (none when no schema was given).
pub fn schema_verdict(violations: Vec<Violation>) -> (r: ValidateOutput)
    ensures
        is_schema_verdict(r, violations@),
        r.valid == (violations@.len() == 0),
        r.violations@ == violations@,
{
    let valid = violations.len() == 0;
    ValidateOutput { valid, error: None, line: None, column: None, violations }
}

/// A violation as its three fields: path, keyword, message.
pub open spec fn violation_view(v: Violation) -> (Seq<char>, Seq<char>, Seq<char>) {
    (v.path@, v.keyword@, v.message@)
}

/// The fields of the violations noyalib reported, one triple each, in
/// order.
pub open spec fn reported(found: Seq<noyalib::SchemaViolation>) -> Seq<
    (Seq<char>, Seq<char>, Seq<char>),
> {
    found.map_values(|p: noyalib::SchemaViolation| violation_parts(p))
}

/// `schema: <reason>`: the schema is not one the library accepts.
pub open spec fn schema_failure_text(reason: Seq<char>) -> Seq<char> {
    "schema: "@ + reason
}

/// Check that YAML text parses and, when `schema` is given, that it
/// satisfies that JSON Schema.
///
/// A text that does not parse, or a document that violates the schema,
/// is a verdict with `valid: false`, not an error: the location or the
/// violations are the answer. The violations are every one noyalib
/// reports, with its RFC 6901 path, keyword and message, in order.
///
/// # Errors
///
/// The schema is not JSON (`schema is not JSON: ...`), or it cannot be
/// turned into a YAML value or compiled as a schema (`schema: ...`).
/// Nothing was validated, so there is no verdict.
pub fn validate(yaml: &str, schema: Option<&str>) -> (r: Result<ValidateOutput, String>)
    ensures
        match yaml_load(yaml@) {
            Err((m, loc)) => r matches Ok(out) && is_parse_failure_verdict(out, m, loc),
            Ok(value) => match schema {
                None => r matches Ok(out) && is_schema_verdict(out, Seq::empty()),
                Some(text) => match json_parse(text@) {
                    Err(e) => r matches Err(m) && m@ == "schema is not JSON: "@ + e,
                    Ok(j) => match yaml_of_json(j) {
                        Err(e) => r matches Err(m) && m@ == schema_failure_text(e),
                        Ok(sv) => match compiled_schema(sv) {
                            Err(e) => r matches Err(m) && m@ == schema_failure_text(e),
                            Ok(c) => match schema_report(c, value) {
                                Err(e) => r matches Err(m) && m@ == internal_text(e),
                                Ok(found) => r matches Ok(out) && is_schema_verdict(
                                    out,
                                    out.violations@,
                                ) && out.violations@.map_values(
                                    |v: Violation| violation_view(v),
                                ) == reported(found) && out.valid == (found.len() == 0),
                            },
                        },
                    },
                },
            },
        },
{
    let value = match load_value(yaml) {
        Ok(v) => v,
        Err((message, location)) => {
            return Ok(parse_failure_verdict(message, location));
        },
    };
    let schema_text = match schema {
        Some(t) => t,
        None => {
            return Ok(schema_verdict(Vec::new()));
        },
    };
    let json = match parse_json(schema_text) {
        Ok(j) => j,
        Err(e) => {
            let mut m = String::from_str("schema is not JSON: ");
            m.append(e.as_str());
            return Err(m);
        },
    };
    let schema_value = match json_to_yaml(json) {
        Ok(v) => v,
        Err(e) => {
            let mut m = String::from_str("schema: ");
            m.append(e.as_str());
            return Err(m);
        },
    };
    let compiled = match compile_schema(&schema_value) {
        Ok(c) => c,
        Err(e) => {
            let mut m = String::from_str("schema: ");
            m.append(e.as_str());
            return Err(m);
        },
    };
    let found = match schema_violations(&compiled, &value) {
        Ok(f) => f,
        Err(e) => {
            return Err(internal(e.as_str()));
        },
    };
    let ghost want = reported(found@);
    let mut violations: Vec<Violation> = Vec::new();
    let mut i: usize = 0;
    while i < found.len()
        invariant
            i <= found.len(),
            want == reported(found@),
            violations@.len() == i,
            violations@.map_values(|v: Violation| violation_view(v)) == want.take(i as int),
        decreases found.len() - i,
    {
        let (path, keyword, message) = violation_fields(&found[i]);
        let ghost before = violations@;
        violations.push(Violation { path, keyword, message });
        assert(violations@.map_values(|v: Violation| violation_view(v)) =~= want.take(i + 1)) by {
            assert(want[i as int] == violation_parts(found@[i as int]));
            assert forall|k: int| 0 <= k < i implies violations@[k] == before[k] by {}
            assert(before.map_values(|v: Violation| violation_view(v)) =~= want.take(i as int));
            assert forall|k: int| 0 <= k < i implies violation_view(before[k]) == want[k] by {
                assert(before.map_values(|v: Violation| violation_view(v))[k] == want.take(i as int)[k]);
            }
        }
        i = i + 1;
    }
    assert(want.take(found.len() as int) =~= want);
    Ok(schema_verdict(violations))
}

// --- The verdict as JSON -------------------------------------------------

/// A boolean as JSON.
pub open spec fn bool_json(b: bool) -> Seq<char> {
    if b {
        "true"@
    } else {
        "false"@
    }
}

/// A violation as a JSON object, its fields in declaration order.
pub open spec fn violation_json(v: Violation) -> Seq<char> {
    "{\"path\":"@ + json_literal(v.path@) + ",\"keyword\":"@ + json_literal(v.keyword@)
        + ",\"message\":"@ + json_literal(v.message@) + "}"@
}

/// The violations as the elements of a JSON array, comma-separated.
pub open spec fn violations_json(vs: Seq<Violation>) -> Seq<char>
    decreases vs.len(),
{
    if vs.len() == 0 {
        Seq::empty()
    } else if vs.len() == 1 {
        violation_json(vs[0])
    } else {
        violations_json(vs.drop_last()) + ","@ + violation_json(vs.last())
    }
}

/// An optional number member: `,"<key>":<n>` when present, nothing when
/// absent.
pub open spec fn number_member(key: Seq<char>, n: Option<usize>) -> Seq<char> {
    match n {
        Some(v) => ",\""@ + key + "\":"@ + decimal(v as nat),
        None => Seq::empty(),
    }
}

/// The verdict as compact JSON, fields in declaration order, absent
/// options omitted: what a model parses back.
pub open spec fn verdict_json(out: ValidateOutput) -> Seq<char> {
    let error = match out.error {
        None => Seq::<char>::empty(),
        Some(e) => ",\"error\":"@ + json_literal(e@),
    };
    "{\"valid\":"@ + bool_json(out.valid) + error + number_member("line"@, out.line)
        + number_member("column"@, out.column) + ",\"violations\":["@ + violations_json(
        out.violations@,
    ) + "]}"@
}

fn violation_to_json(v: &Violation) -> (r: String)
    ensures
        r@ == violation_json(*v),
{
    let p = quote_json(v.path.as_str());
    let k = quote_json(v.keyword.as_str());
    let m = quote_json(v.message.as_str());
    let mut s = String::from_str("{\"path\":");
    s.append(p.as_str());
    s.append(",\"keyword\":");
    s.append(k.as_str());
    s.append(",\"message\":");
    s.append(m.as_str());
    s.append("}");
    s
}

fn append_number_member(s: &mut String, key: &str, n: Option<usize>)
    ensures
        final(s)@ == old(s)@ + number_member(key@, n),
{
    match n {
        Some(v) => {
            s.append(",\"");
            s.append(key);
            s.append("\":");
            let d = decimal_text(v);
            s.append(d.as_str());
        },
        None => {
            assert(old(s)@ + number_member(key@, n) =~= old(s)@);
        },
    }
}

impl ValidateOutput {
    /// What the model reads: the verdict as compact JSON, as
    /// `{"valid":true,"violations":[]}`.
    #[verifier::rlimit(40)]
    pub fn to_text(&self) -> (r: String)
        ensures
            r@ == verdict_json(*self),
    {
        let mut s = String::from_str("{\"valid\":");
        if self.valid {
            s.append("true");
        } else {
            s.append("false");
        }
        match &self.error {
            Some(e) => {
                let q = quote_json(e.as_str());
                s.append(",\"error\":");
                s.append(q.as_str());
            },
            None => {},
        }
        append_number_member(&mut s, "line", self.line);
        append_number_member(&mut s, "column", self.column);
        let mut items = String::new();
        let mut i: usize = 0;
        while i < self.violations.len()
            invariant
                i <= self.violations.len(),
                violations_json(self.violations@.take(i as int)) == items@,
            decreases self.violations.len() - i,
        {
            let ghost before = self.violations@.take(i as int);
            let v = violation_to_json(&self.violations[i]);
            if i != 0 {
                items.append(",");
            }
            items.append(v.as_str());
            proof {
                assert(self.violations@.take(i + 1).drop_last() =~= before);
                assert(self.violations@.take(i + 1).last() == self.violations@[i as int]);
                if i == 0 {
                    assert(items@ =~= v@);
                }
            }
            i = i + 1;
        }
        assert(self.violations@.take(self.violations.len() as int) =~= self.violations@);
        s.append(",\"violations\":[");
        s.append(items.as_str());
        s.append("]}");
        s
    }
}

} // verus!
