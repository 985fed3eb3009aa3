//! The boundary to the TOML encoder and parser. The `toml` crate does the
//! text work; everything it hands over or takes is converted, one for one,
//! to and from the library's own document tree, and the typed decode on top
//! of that tree is verified code (`codec`).

use vstd::prelude::*;

use crate::codec::{build_spec_doc, parse_spec_doc};
use crate::doc::{doc_view, Doc, DocV};
use crate::errors::WsError;
use crate::schema::{doc_of_spec, spec_of_docv};
use crate::spec_model::{
    spec_canonicalize, spec_default_layout, spec_default_text, Color, ColorV, Layout, Num,
    OutputSpec, OutputV, Pos, StampSpec, StampSpecV, TextSpec,
};

verus! {

#[verifier::external_type_specification]
#[verifier::external_body]
pub struct ExTomlValue(toml::Value);

/// What the TOML parser yields on a given text: the document tree, or
/// nothing when the text is malformed. A function of the text alone.
pub uninterp spec fn toml_doc_of(text: Seq<char>) -> Option<DocV>;

/// What the TOML pretty encoder prints for a given document tree, when it
/// succeeds. A function of the document alone.
pub uninterp spec fn toml_text_of(d: DocV) -> Seq<char>;

/// Converts a parsed `toml::Value` into the library's document tree, one
/// arm per variant, moving fields; a datetime is carried as its text form.
/// Serves only `toml_parse_value` below.
#[verifier::external_body]
fn doc_of_toml_value(v: toml::Value) -> Doc {
    match v {
        toml::Value::String(s) => Doc::Str(s),
        toml::Value::Integer(i) => Doc::Int(i),
        toml::Value::Float(f) => Doc::Float(format!("{:?}", f)),
        toml::Value::Boolean(b) => Doc::Bool(b),
        toml::Value::Datetime(d) => Doc::Str(d.to_string()),
        toml::Value::Array(a) => Doc::Arr(a.into_iter().map(doc_of_toml_value).collect()),
        toml::Value::Table(t) => Doc::Table(
            t.into_iter().map(|(k, w)| (k, doc_of_toml_value(w))).collect(),
        ),
    }
}

/// Converts the library's document tree into a `toml::Value`, one arm per
/// variant. Serves only `toml_print_value` below.
#[verifier::external_body]
fn toml_value_of_doc(d: &Doc) -> toml::Value {
    match d {
        Doc::Int(i) => toml::Value::Integer(*i),
        Doc::Float(s) => toml::Value::Float(s.parse().unwrap_or_default()),
        Doc::Bool(b) => toml::Value::Boolean(*b),
        Doc::Str(s) => toml::Value::String(s.clone()),
        Doc::Arr(v) => toml::Value::Array(v.iter().map(toml_value_of_doc).collect()),
        Doc::Table(t) => toml::Value::Table(
            t.iter().map(|p| (p.0.clone(), toml_value_of_doc(&p.1))).collect(),
        ),
    }
}

/// Relies on `toml::from_str::<toml::Value>`: parses the configuration
/// text into a value tree, or fails on malformed text; deterministic in
/// the text alone.
#[verifier::external_body]
fn toml_parse_value(text: &str) -> (r: Option<Doc>)
    ensures
        r is Some <==> toml_doc_of(text@) is Some,
        r is Some ==> doc_view(r->0) == toml_doc_of(text@)->0,
{
    match toml::from_str::<toml::Value>(text) {
        Ok(v) => Some(doc_of_toml_value(v)),
        Err(_) => None,
    }
}

/// Relies on `toml::to_string_pretty`: prints a value tree as TOML text,
/// deterministic in the document alone. Printing a table never fails: the
/// encoder's only errors are a non-table at top level, non-string keys and
/// unsupported values, none of which `toml_value_of_doc` can produce.
#[verifier::external_body]
fn toml_print_value(d: &Doc) -> (r: Result<String, String>)
    ensures
        doc_view(*d) is Table ==> r is Ok,
        r is Ok ==> r->Ok_0@ == toml_text_of(doc_view(*d)),
{
    match toml::to_string_pretty(&toml_value_of_doc(d)) {
        Ok(s) => Ok(s),
        Err(e) => Err(e.to_string()),
    }
}

/// Strict parse: the typed specification from configuration text, with the
/// documented defaults for missing fields; a parse error on malformed text
/// or a field of the wrong shape, and on nothing else.
pub fn parse_spec_from_toml(toml_text: &str) -> (r: Result<StampSpec, WsError>)
    ensures
        r is Ok <==> (toml_doc_of(toml_text@) is Some && spec_of_docv(
            toml_doc_of(toml_text@)->0,
        ) is Some),
        r is Ok ==> r->Ok_0@ == spec_of_docv(toml_doc_of(toml_text@)->0)->0,
        r is Err ==> r->Err_0 is Parse,
{
    match toml_parse_value(toml_text) {
        Some(d) => parse_spec_doc(&d),
        None => Err(WsError::Parse(String::from_str("malformed configuration text"))),
    }
}

/// The hard-coded safe default shown when a stored document cannot be
/// parsed: one sample text entry, size 24, black, at (10, 10).
pub open spec fn spec_fallback() -> StampSpecV {
    StampSpecV {
        stack_size: 1,
        source_image: Seq::empty(),
        layout: spec_default_layout(),
        texts: seq![spec_default_text()],
        output: OutputV { background_color: ColorV::Named("white"@) },
        background: ColorV::Rgb(255, 255, 255),
    }
}

/// The hard-coded safe default, built.
pub fn fallback_spec() -> (r: StampSpec)
    ensures
        r@ == spec_fallback(),
{
    let mut texts: Vec<TextSpec> = Vec::new();
    texts.push(
        TextSpec {
            template: String::from_str("Sample Text"),
            position: Pos { x: Num::Int(10), y: Num::Int(10) },
            ttf: None,
            size: 24,
            color: Color::Named(String::from_str("black")),
        },
    );
    let r = StampSpec {
        stack_size: 1,
        source_image: String::new(),
        layout: Layout::default(),
        texts,
        output: OutputSpec { background_color: Color::Named(String::from_str("white")) },
        background: Color::Rgb(255, 255, 255),
    };
    proof {
        assert(r@.texts =~= seq![spec_default_text()]);
        assert(r@ =~~= spec_fallback());
    }
    r
}

/// Lenient read, for display purposes: the parsed specification when the
/// text is well-formed, the hard-coded safe default otherwise — never an
/// error.
pub fn read_spec_lenient(toml_text: &str) -> (r: StampSpec)
    ensures
        (toml_doc_of(toml_text@) is Some && spec_of_docv(toml_doc_of(toml_text@)->0) is Some)
            ==> r@ == spec_of_docv(toml_doc_of(toml_text@)->0)->0,
        !(toml_doc_of(toml_text@) is Some && spec_of_docv(toml_doc_of(toml_text@)->0) is Some)
            ==> r@ == spec_fallback(),
{
    match parse_spec_from_toml(toml_text) {
        Ok(s) => s,
        Err(_) => fallback_spec(),
    }
}

impl StampSpec {
    /// Serialize for saving: canonicalize first, then print as TOML text.
    /// The document built is always a table, and the encoder prints every
    /// table, so serialization always succeeds: no specification value can
    /// fail it, canonicalization having repaired the data first.
    pub fn to_canonical_toml_string(self) -> (r: Result<String, WsError>)
        ensures
            r is Ok,
            r->Ok_0@ == toml_text_of(doc_of_spec(spec_canonicalize(self@))),
    {
        let canonical = self.normalize_for_save();
        let d = build_spec_doc(&canonical);
        match toml_print_value(&d) {
            Ok(s) => Ok(s),
            Err(e) => Err(WsError::Serialize(e)),
        }
    }
}

} // verus!
