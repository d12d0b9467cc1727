//! The trusted boundary to noyalib's lossless syntax tree and to the
//! serde_json calls the tools make.
//!
//! A `noyalib::cst::Document` keeps its source text, its green tree, its
//! typed value and its span tree coordinated (noyalib re-parses the whole
//! source on every edit and refuses an edit whose result does not parse),
//! so everything a document answers is a function of its current text.
//! The items below say so: a document is known here by the text it
//! renders to, and each query is a named function of that text.
//!
//! Nothing in this module is proved; each item's contract is what the
//! noyalib or serde_json source and documentation show of the call it
//! makes.

use vstd::prelude::*;

verus! {

/// noyalib's editable, byte-faithful YAML document.
#[verifier::external_type_specification]
#[verifier::external_body]
pub struct ExDocument(noyalib::cst::Document);

/// noyalib's typed YAML value.
#[verifier::external_type_specification]
#[verifier::external_body]
pub struct ExYamlValue(noyalib::Value);

/// A JSON value of serde_json.
#[verifier::external_type_specification]
#[verifier::external_body]
pub struct ExJsonValue(serde_json::Value);

/// A JSON Schema compiled by noyalib.
#[verifier::external_type_specification]
#[verifier::external_body]
pub struct ExCompiledSchema(noyalib::CompiledSchema);

/// One structured schema violation reported by noyalib.
#[verifier::external_type_specification]
#[verifier::external_body]
pub struct ExSchemaViolation(noyalib::SchemaViolation);

/// The text a document renders to (`Document::to_string`): its current
/// source, byte for byte.
pub uninterp spec fn document_text(d: noyalib::cst::Document) -> Seq<char>;

/// What `noyalib::cst::parse_document` says of `src`: `None` when it
/// parses, the error's message when it does not.
pub uninterp spec fn cst_parse_failure(src: Seq<char>) -> Option<Seq<char>>;

/// What `Document::get` answers for `path` on a document whose text is
/// `text`: the source slice of the value there, or `None` (no such path,
/// or an implicit null, which has no bytes).
pub uninterp spec fn cst_value_at(text: Seq<char>, path: Seq<char>) -> Option<Seq<char>>;

/// What `Document::span_at` answers for `path` on a document whose text
/// is `text`: the span of the value there, counted in characters, or
/// `None` (no such path, or an implicit null, which has no bytes).
/// `Document::get` reads exactly this span.
pub uninterp spec fn cst_value_span(text: Seq<char>, path: Seq<char>) -> Option<(int, int)>;

/// Where `Document::set` writes at `path` on a document whose text is
/// `text` (its private `write_span`): the span it replaces, counted in
/// characters, or `None` when it finds none.
pub uninterp spec fn cst_write_span(text: Seq<char>, path: Seq<char>) -> Option<(int, int)>;

/// What `Document::key_span` answers for `path` on a document whose text
/// is `text`: the byte span of the mapping key at that path, if there
/// is one.
pub uninterp spec fn cst_key_span(text: Seq<char>, path: Seq<char>) -> Option<(usize, usize)>;

/// What `Document::set` does to a document whose text is `text`: the
/// new text, or the error's message.
pub uninterp spec fn cst_set(text: Seq<char>, path: Seq<char>, fragment: Seq<char>) -> Result<
    Seq<char>,
    Seq<char>,
>;

/// What `noyalib::cst::parse_stream` makes of `src`: the texts of its
/// documents in order, or the error's message.
pub uninterp spec fn cst_stream(src: Seq<char>) -> Result<Seq<Seq<char>>, Seq<char>>;

/// What `noyalib::load_all_as::<Value>` makes of `yaml`: its documents'
/// values in order, or the error's message.
pub uninterp spec fn yaml_documents(yaml: Seq<char>) -> Result<Seq<noyalib::Value>, Seq<char>>;

/// What `noyalib::Value::untag` makes of `v`: the same value with every
/// custom tag stripped.
pub uninterp spec fn untagged(v: noyalib::Value) -> noyalib::Value;

/// What `serde_json::to_value` makes of the YAML value `v`: its JSON
/// form, or the error's message.
pub uninterp spec fn json_form(v: noyalib::Value) -> Result<serde_json::Value, Seq<char>>;

/// What `noyalib::from_str::<Value>` makes of `yaml`: its one document's
/// value, or the error's message and its (line, column), when the error
/// has a location.
pub uninterp spec fn yaml_load(yaml: Seq<char>) -> Result<
    noyalib::Value,
    (Seq<char>, Option<(usize, usize)>),
>;

/// What `serde_json::from_str::<serde_json::Value>` makes of `text`: the
/// JSON value it holds, or the error's message.
pub uninterp spec fn json_parse(text: Seq<char>) -> Result<serde_json::Value, Seq<char>>;

/// What `serde_json::from_value::<noyalib::Value>` makes of the JSON
/// value `v`: the same value as YAML, or the error's message.
pub uninterp spec fn yaml_of_json(v: serde_json::Value) -> Result<noyalib::Value, Seq<char>>;

/// What `noyalib::CompiledSchema::compile` makes of `schema`: the
/// compiled schema, or the error's message.
pub uninterp spec fn compiled_schema(schema: noyalib::Value) -> Result<
    noyalib::CompiledSchema,
    Seq<char>,
>;

/// What `CompiledSchema::iter_errors` reports for `value` against
/// `schema`: every violation, in the order the validator yields them, or
/// the error's message.
pub uninterp spec fn schema_report(
    schema: noyalib::CompiledSchema,
    value: noyalib::Value,
) -> Result<Seq<noyalib::SchemaViolation>, Seq<char>>;

/// The three public fields of a `noyalib::SchemaViolation`: the RFC 6901
/// instance path, the keyword, the message.
pub uninterp spec fn violation_parts(v: noyalib::SchemaViolation) -> (Seq<char>, Seq<char>, Seq<
    char,
>);

/// The texts of a sequence of documents.
pub open spec fn document_texts(ds: Seq<noyalib::cst::Document>) -> Seq<Seq<char>> {
    ds.map_values(|d: noyalib::cst::Document| document_text(d))
}

/// The strings of `parts`, one after another.
pub open spec fn concat_all(parts: Seq<Seq<char>>) -> Seq<char>
    decreases parts.len(),
{
    if parts.len() == 0 {
        Seq::empty()
    } else {
        concat_all(parts.drop_last()) + parts.last()
    }
}

/// `v` is a contiguous piece of `text`, exactly as written there.
pub open spec fn is_slice_of(v: Seq<char>, text: Seq<char>) -> bool {
    exists|s: int, e: int| 0 <= s <= e <= text.len() && v == #[trigger] text.subrange(s, e)
}

/// What an edit puts in place of the span it replaces: the fragment
/// verbatim, preceded by a space when the span was empty (an implicit
/// null being filled in after its `:` or `-`).
pub open spec fn spliced_piece(fragment: Seq<char>, empty_span: bool) -> Seq<char> {
    if empty_span {
        seq![' '] + fragment
    } else {
        fragment
    }
}

/// `t` is `text` with one span `s..e` replaced by the fragment: every
/// character before `s` and from `e` on is kept, byte for byte.
pub open spec fn splices_at(text: Seq<char>, fragment: Seq<char>, t: Seq<char>, s: int, e: int) -> bool {
    &&& 0 <= s <= e <= text.len()
    &&& t == text.subrange(0, s) + spliced_piece(fragment, s == e) + text.subrange(
        e,
        text.len() as int,
    )
}

/// `t` is `text` with one span replaced by the fragment and nothing else
/// changed.
pub open spec fn splices(text: Seq<char>, fragment: Seq<char>, t: Seq<char>) -> bool {
    exists|s: int, e: int| #[trigger] splices_at(text, fragment, t, s, e)
}

/// Where an edit at `path` lands in `text`: the span of the value read
/// there when it has one; for an implicit null, the empty span just
/// after its `:` or `-` indicator.
pub open spec fn is_value_site(text: Seq<char>, path: Seq<char>, s: int, e: int) -> bool {
    match cst_value_span(text, path) {
        Some((vs, ve)) => s == vs && e == ve,
        None => s == e && 1 <= s <= text.len() && (text[s - 1] == ':' || text[s - 1] == '-'),
    }
}

/// `t` is `text` with the value at `path` replaced by the fragment: the
/// span `set` writes is that value's span (or an implicit null's
/// insertion point), and every character outside it is kept.
pub open spec fn edits_value(text: Seq<char>, path: Seq<char>, fragment: Seq<char>, t: Seq<char>) -> bool {
    &&& cst_write_span(text, path) matches Some((s, e))
    &&& is_value_site(text, path, s, e)
    &&& splices_at(text, fragment, t, s, e)
}

/// `noyalib::cst::parse_document`: parses `src` into a document whose
/// text is `src` exactly (noyalib documents that `to_string` of a parsed
/// document is byte-identical to its input); on failure, the error's
/// message.
#[verifier::external_body]
pub(crate) fn parse_document(src: &str) -> (r: Result<noyalib::cst::Document, String>)
    ensures
        match r {
            Ok(d) => cst_parse_failure(src@) is None && document_text(d) == src@,
            Err(m) => cst_parse_failure(src@) == Some(m@),
        },
{
    noyalib::cst::parse_document(src).map_err(|e| e.to_string())
}

/// `noyalib::cst::parse_stream`: one document per `---`-separated
/// document of `src`; noyalib documents that the documents' texts,
/// concatenated, reproduce `src` byte for byte. On failure, the
/// error's message.
#[verifier::external_body]
pub(crate) fn parse_stream(src: &str) -> (r: Result<Vec<noyalib::cst::Document>, String>)
    ensures
        match r {
            Ok(ds) => cst_stream(src@) == Ok::<Seq<Seq<char>>, Seq<char>>(document_texts(ds@))
                && concat_all(document_texts(ds@)) == src@,
            Err(m) => cst_stream(src@) == Err::<Seq<Seq<char>>, Seq<char>>(m@),
        },
{
    noyalib::cst::parse_stream(src).map_err(|e| e.to_string())
}

/// `Document::to_string`: the document's current text.
#[verifier::external_body]
pub(crate) fn render(d: &noyalib::cst::Document) -> (r: String)
    ensures
        r@ == document_text(*d),
{
    d.to_string()
}

/// `Document::get`: the source slice of the value at `path` (the source
/// shows `&self.source[s..e]` for the span of the value).
#[verifier::external_body]
pub(crate) fn value_at(d: &noyalib::cst::Document, path: &str) -> (r: Option<String>)
    ensures
        match r {
            Some(v) => cst_value_at(document_text(*d), path@) == Some(v@) && is_slice_of(
                v@,
                document_text(*d),
            ) && (cst_value_span(document_text(*d), path@) matches Some((s, e)) && 0 <= s <= e
                <= document_text(*d).len() && v@ == document_text(*d).subrange(s, e)),
            None => cst_value_at(document_text(*d), path@) is None && cst_value_span(
                document_text(*d),
                path@,
            ) is None,
        },
{
    d.get(path).map(|v| v.to_owned())
}

/// `Document::key_span`: the byte span of the key at `path`, if the path
/// ends at a mapping entry.
#[verifier::external_body]
pub(crate) fn key_span(d: &noyalib::cst::Document, path: &str) -> (r: Option<(usize, usize)>)
    ensures
        r == cst_key_span(document_text(*d), path@),
{
    d.key_span(path)
}

/// `Document::set`: splices `fragment` in as the value at `path`. noyalib
/// documents that the splice is verbatim and that a refused edit leaves
/// the document untouched; its source shows the new text built as the
/// text before the value's span, the fragment (after a space when the
/// span is empty), and the text after the span, at character boundaries.
/// The span is `write_span`'s: the one `Document::get` reads at `path`
/// whenever there is one (`span_at` and `write_span` resolve it the same
/// way, `write_span` refusing an alias), and otherwise the empty span
/// just after the `:` or `-` of an implicit null
/// (`implicit_null_insertion_point`).
#[verifier::external_body]
pub(crate) fn set_at(d: &mut noyalib::cst::Document, path: &str, fragment: &str) -> (r: Result<
    (),
    String,
>)
    ensures
        match cst_set(document_text(*old(d)), path@, fragment@) {
            Ok(t) => r is Ok && document_text(*final(d)) == t && splices(
                document_text(*old(d)),
                fragment@,
                t,
            ) && cst_write_span(document_text(*old(d)), path@) is Some && edits_value(
                document_text(*old(d)),
                path@,
                fragment@,
                t,
            ),
            Err(m) => (r matches Err(e) && e@ == m) && document_text(*final(d)) == document_text(
                *old(d),
            ),
        },
{
    d.set(path, fragment).map_err(|e| e.to_string())
}

/// `noyalib::load_all_as::<Value>`: every document of `yaml` as a typed
/// value, in order, or the error's message.
#[verifier::external_body]
pub(crate) fn load_all(yaml: &str) -> (r: Result<Vec<noyalib::Value>, String>)
    ensures
        match r {
            Ok(vs) => yaml_documents(yaml@) == Ok::<Seq<noyalib::Value>, Seq<char>>(vs@),
            Err(m) => yaml_documents(yaml@) == Err::<Seq<noyalib::Value>, Seq<char>>(m@),
        },
{
    noyalib::load_all_as::<noyalib::Value>(yaml).map_err(|e| e.to_string())
}

/// `noyalib::Value::untag`: the value with every custom tag stripped.
#[verifier::external_body]
pub(crate) fn untag(v: noyalib::Value) -> (r: noyalib::Value)
    ensures
        r == untagged(v),
{
    v.untag()
}

/// `serde_json::to_value`: a YAML value as JSON, or the error's message.
#[verifier::external_body]
pub(crate) fn to_json(v: noyalib::Value) -> (r: Result<serde_json::Value, String>)
    ensures
        match r {
            Ok(j) => json_form(v) == Ok::<serde_json::Value, Seq<char>>(j),
            Err(m) => json_form(v) == Err::<serde_json::Value, Seq<char>>(m@),
        },
{
    serde_json::to_value(v).map_err(|e| e.to_string())
}

/// `noyalib::from_str::<Value>`: the one document of `yaml`, or the
/// error's message and location.
#[verifier::external_body]
pub(crate) fn load_value(yaml: &str) -> (r: Result<noyalib::Value, (String, Option<(usize, usize)>)>)
    ensures
        match r {
            Ok(v) => yaml_load(yaml@) == Ok::<noyalib::Value, (Seq<char>, Option<(usize, usize)>)>(
                v,
            ),
            Err((m, loc)) => yaml_load(yaml@) == Err::<
                noyalib::Value,
                (Seq<char>, Option<(usize, usize)>),
            >((m@, loc)),
        },
{
    noyalib::from_str::<noyalib::Value>(yaml).map_err(
        |e| (e.to_string(), e.location().map(|l| (l.line(), l.column()))),
    )
}

/// `serde_json::from_str::<serde_json::Value>`: `text` as JSON, or the
/// error's message.
#[verifier::external_body]
pub(crate) fn parse_json(text: &str) -> (r: Result<serde_json::Value, String>)
    ensures
        match r {
            Ok(j) => json_parse(text@) == Ok::<serde_json::Value, Seq<char>>(j),
            Err(m) => json_parse(text@) == Err::<serde_json::Value, Seq<char>>(m@),
        },
{
    serde_json::from_str::<serde_json::Value>(text).map_err(|e| e.to_string())
}

/// `serde_json::from_value::<noyalib::Value>`: a JSON value as a YAML
/// value, or the error's message.
#[verifier::external_body]
pub(crate) fn json_to_yaml(v: serde_json::Value) -> (r: Result<noyalib::Value, String>)
    ensures
        match r {
            Ok(y) => yaml_of_json(v) == Ok::<noyalib::Value, Seq<char>>(y),
            Err(m) => yaml_of_json(v) == Err::<noyalib::Value, Seq<char>>(m@),
        },
{
    serde_json::from_value::<noyalib::Value>(v).map_err(|e| e.to_string())
}

/// `noyalib::CompiledSchema::compile`: the schema compiled, or the
/// error's message.
#[verifier::external_body]
pub(crate) fn compile_schema(schema: &noyalib::Value) -> (r: Result<
    noyalib::CompiledSchema,
    String,
>)
    ensures
        match r {
            Ok(c) => compiled_schema(*schema) == Ok::<noyalib::CompiledSchema, Seq<char>>(c),
            Err(m) => compiled_schema(*schema) == Err::<noyalib::CompiledSchema, Seq<char>>(m@),
        },
{
    noyalib::CompiledSchema::compile(schema).map_err(|e| e.to_string())
}

/// `CompiledSchema::iter_errors`: every violation of `value`, in the
/// order the validator yields them, or the error's message. The
/// validator's hashed tables serve lookups only, so the report is a
/// function of the schema and the value.
#[verifier::external_body]
pub(crate) fn schema_violations(schema: &noyalib::CompiledSchema, value: &noyalib::Value) -> (r:
    Result<Vec<noyalib::SchemaViolation>, String>)
    ensures
        match r {
            Ok(vs) => schema_report(*schema, *value) == Ok::<
                Seq<noyalib::SchemaViolation>,
                Seq<char>,
            >(vs@),
            Err(m) => schema_report(*schema, *value) == Err::<
                Seq<noyalib::SchemaViolation>,
                Seq<char>,
            >(m@),
        },
{
    schema.iter_errors(value).map_err(|e| e.to_string())
}

/// The three fields of a `noyalib::SchemaViolation`: instance path,
/// keyword, message.
#[verifier::external_body]
pub(crate) fn violation_fields(v: &noyalib::SchemaViolation) -> (r: (String, String, String))
    ensures
        (r.0@, r.1@, r.2@) == violation_parts(*v),
{
    (v.instance_path.clone(), v.keyword.clone(), v.message.clone())
}

/// What `serde_json::to_string_pretty` makes of one JSON value: its
/// pretty-printed text, or `None` when serialisation fails. The text is a
/// function of the value alone.
pub uninterp spec fn json_pretty(v: serde_json::Value) -> Option<Seq<char>>;

/// What `serde_json::to_string_pretty` makes of a slice of JSON values:
/// the pretty-printed JSON array of them, or `None` when serialisation
/// fails. The text is a function of the values alone.
pub uninterp spec fn json_pretty_array(vs: Seq<serde_json::Value>) -> Option<Seq<char>>;

/// `serde_json::to_string_pretty` of one JSON value.
#[verifier::external_body]
pub(crate) fn pretty_json(v: &serde_json::Value) -> (r: Option<String>)
    ensures
        match r {
            Some(t) => json_pretty(*v) == Some(t@),
            None => json_pretty(*v) is None,
        },
{
    serde_json::to_string_pretty(v).ok()
}

/// `serde_json::to_string_pretty` of a JSON array of values.
#[verifier::external_body]
pub(crate) fn pretty_json_array(vs: &Vec<serde_json::Value>) -> (r: Option<String>)
    ensures
        match r {
            Some(t) => json_pretty_array(vs@) == Some(t@),
            None => json_pretty_array(vs@) is None,
        },
{
    serde_json::to_string_pretty(vs.as_slice()).ok()
}

} // verus!
