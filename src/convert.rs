use vstd::prelude::*;
use crate::naming::{
    clean_name, export_name, module_source, module_text, output_file_name, stem_file_name,
    stem_ident,
};

verus! {

/// Why one file, or one pattern, could not be converted.
#[derive(Debug)]
pub enum ConvertError {
    /// The input file could not be read.
    Read { path: String, cause: String },
    /// The input file's text is not JSON; `cause` is the parser's diagnostic.
    Parse { path: String, cause: String },
    /// The input path has no file name to derive the output's names from.
    FileName { path: String },
    /// The output directory could not be created.
    CreateDir { path: String, cause: String },
    /// The output file could not be written.
    Write { path: String, cause: String },
    /// A wildcard pattern is not valid glob syntax.
    Glob { pattern: String, cause: String },
}

/// What `ConvertError::message` returns.
pub open spec fn message_of(e: ConvertError) -> Seq<char> {
    match e {
        ConvertError::Read { path, cause } => "Failed to read file "@ + path@ + ": "@ + cause@,
        ConvertError::Parse { path, cause } => "Invalid JSON in "@ + path@ + ": "@ + cause@,
        ConvertError::FileName { path } => "Invalid input filename: "@ + path@,
        ConvertError::CreateDir { path, cause } => "Failed to create output directory "@ + path@
            + ": "@ + cause@,
        ConvertError::Write { path, cause } => "Failed to write file "@ + path@ + ": "@ + cause@,
        ConvertError::Glob { pattern, cause } => "Invalid glob pattern '"@ + pattern@ + "': "@
            + cause@,
    }
}

fn joined(a: &str, b: &String, c: &str, d: &String) -> (r: String)
    ensures
        r@ == a@ + b@ + c@ + d@,
{
    let mut out = String::from_str(a);
    out.append(b.as_str());
    out.append(c);
    out.append(d.as_str());
    out
}

impl ConvertError {
    /// A one-line description naming the offending path or pattern and the
    /// cause.
    pub fn message(&self) -> (r: String)
        ensures
            r@ == message_of(*self),
    {
        match self {
            ConvertError::Read { path, cause } => joined("Failed to read file ", path, ": ", cause),
            ConvertError::Parse { path, cause } => joined("Invalid JSON in ", path, ": ", cause),
            ConvertError::FileName { path } => {
                let mut out = String::from_str("Invalid input filename: ");
                out.append(path.as_str());
                out
            },
            ConvertError::CreateDir { path, cause } => joined(
                "Failed to create output directory ",
                path,
                ": ",
                cause,
            ),
            ConvertError::Write { path, cause } => joined("Failed to write file ", path, ": ", cause),
            ConvertError::Glob { pattern, cause } => joined(
                "Invalid glob pattern '",
                pattern,
                "': ",
                cause,
            ),
        }
    }
}

/// A rendered module: the constant's name, the file to write it to (within
/// the output directory) and the file's text.
#[derive(Debug)]
pub struct AbiModule {
    pub export_name: String,
    pub file_name: String,
    pub source: String,
}

/// Whether `m` is the module rendered from file stem `stem` and pretty-printed
/// JSON text `json`.
pub open spec fn renders(m: AbiModule, stem: Seq<char>, json: Seq<char>) -> bool {
    &&& m.export_name@ == stem_ident(stem)
    &&& m.file_name@ == stem_file_name(stem)
    &&& m.source@ == module_text(stem_ident(stem), json)
}

/// Renders the module for file stem `stem` and pretty-printed JSON `json`.
pub fn render_module(stem: &str, json: &str) -> (r: AbiModule)
    ensures
        renders(r, stem@, json@),
{
    let clean = clean_name(stem);
    let export_name = export_name(clean.as_str());
    let file_name = output_file_name(clean.as_str());
    let source = module_source(export_name.as_str(), json);
    AbiModule { export_name, file_name, source }
}

/// The module for `input_path` once its stem and its pretty-printed JSON are
/// known: an error naming the path where it has no stem.
pub fn module_for(input_path: &str, stem: Option<String>, json: &str) -> (r: Result<
    AbiModule,
    ConvertError,
>)
    ensures
        match stem {
            Some(s) => r matches Ok(m) && renders(m, s@, json@),
            None => r matches Err(ConvertError::FileName { path }) && path@ == input_path@,
        },
{
    match stem {
        Some(s) => Ok(render_module(s.as_str(), json)),
        None => Err(ConvertError::FileName { path: String::from_str(input_path) }),
    }
}

/// Whether `serde_json::from_str` accepts `s` as a JSON document.
pub uninterp spec fn json_accepts(s: Seq<char>) -> bool;

/// What `serde_json::to_string_pretty` prints for the document that
/// `serde_json::from_str` reads from `s`.
pub uninterp spec fn pretty_of(s: Seq<char>) -> Seq<char>;

/// The diagnostic (`Display` of `serde_json::Error`) with which
/// `serde_json::from_str` rejects `s`.
pub uninterp spec fn json_diagnostic(s: Seq<char>) -> Seq<char>;

/// Relies on `serde_json::from_str` into a `Value`, on
/// `serde_json::to_string_pretty` of that `Value`, and on the `Display` of
/// `serde_json::Error`. Each depends on its input alone. Printing a `Value`
/// does not fail: its `Serialize` impl never fails and its map keys are
/// strings.
#[verifier::external_body]
fn pretty_json(text: &str) -> (r: Result<String, String>)
    ensures
        r is Ok <==> json_accepts(text@),
        r matches Ok(p) ==> p@ == pretty_of(text@),
        r matches Err(d) ==> d@ == json_diagnostic(text@),
{
    match serde_json::from_str::<serde_json::Value>(text) {
        Ok(v) => serde_json::to_string_pretty(&v).map_err(|e| e.to_string()),
        Err(e) => Err(e.to_string()),
    }
}

/// What `std::path::Path::file_stem` gives for `path`, as text: the file
/// name without its final extension, or nothing where `path` has no file
/// name.
pub uninterp spec fn stem_of(path: Seq<char>) -> Option<Seq<char>>;

/// Relies on `std::path::Path::file_stem`; the stem of a `&str` path is
/// always valid UTF-8, so `to_str` only converts.
#[verifier::external_body]
fn file_stem(path: &str) -> (r: Option<String>)
    ensures
        match r {
            Some(s) => stem_of(path@) == Some(s@),
            None => stem_of(path@) is None,
        },
{
    std::path::Path::new(path).file_stem().and_then(|s| s.to_str()).map(|s| s.to_string())
}

/// What converting the file at `path` with text `text` gives: a parse error
/// carrying the path and the parser's diagnostic where the text is not JSON;
/// else a file-name error where the path has no stem; else the module
/// rendered from the stem and the pretty-printed document.
pub open spec fn converts(
    path: Seq<char>,
    text: Seq<char>,
    r: Result<AbiModule, ConvertError>,
) -> bool {
    if !json_accepts(text) {
        r matches Err(ConvertError::Parse { path: p, cause }) && p@ == path && cause@
            == json_diagnostic(text)
    } else {
        match stem_of(path) {
            Some(stem) => r matches Ok(m) && renders(m, stem, pretty_of(text)),
            None => r matches Err(ConvertError::FileName { path: p }) && p@ == path,
        }
    }
}

/// Converts the text of the file at `input_path` into a module: the text is
/// parsed as JSON and pretty-printed, and the names come from the path's
/// stem. Text that is not JSON is a parse error, whatever the path.
pub fn convert_text(input_path: &str, text: &str) -> (r: Result<AbiModule, ConvertError>)
    ensures
        converts(input_path@, text@, r),
{
    let json = match pretty_json(text) {
        Ok(j) => j,
        Err(cause) => {
            return Err(ConvertError::Parse { path: String::from_str(input_path), cause });
        },
    };
    let stem = file_stem(input_path);
    module_for(input_path, stem, json.as_str())
}

/// A conversion succeeds exactly when the text is JSON and the path has a
/// stem, and then the constant's value is the pretty-printed document.
pub proof fn lemma_success_and_literal(
    path: Seq<char>,
    text: Seq<char>,
    r: Result<AbiModule, ConvertError>,
)
    requires
        converts(path, text, r),
    ensures
        r is Ok <==> json_accepts(text) && stem_of(path) is Some,
        r matches Ok(m) ==> m.source@ == module_text(m.export_name@, pretty_of(text)),
{
}

/// Two conversions of paths with the same stem, each of a JSON text, give
/// the same identifier and the same output file name, whatever the texts.
pub proof fn lemma_names_follow_stem(
    path1: Seq<char>,
    text1: Seq<char>,
    r1: Result<AbiModule, ConvertError>,
    path2: Seq<char>,
    text2: Seq<char>,
    r2: Result<AbiModule, ConvertError>,
)
    requires
        converts(path1, text1, r1),
        converts(path2, text2, r2),
        json_accepts(text1),
        json_accepts(text2),
        stem_of(path1) == stem_of(path2),
    ensures
        r1 is Ok <==> r2 is Ok,
        r1 matches Ok(m1) ==> (r2 matches Ok(m2) && m1.export_name@ == m2.export_name@
            && m1.file_name@ == m2.file_name@),
{
}

/// Converting the same path and text twice gives the same outcome: the same
/// module, or the same error.
pub proof fn lemma_conversion_is_repeatable(
    path: Seq<char>,
    text: Seq<char>,
    r1: Result<AbiModule, ConvertError>,
    r2: Result<AbiModule, ConvertError>,
)
    requires
        converts(path, text, r1),
        converts(path, text, r2),
    ensures
        r1 is Ok <==> r2 is Ok,
        r1 matches Ok(m1) ==> (r2 matches Ok(m2) && m1.export_name@ == m2.export_name@
            && m1.file_name@ == m2.file_name@ && m1.source@ == m2.source@),
        r1 is Err ==> (r2 is Err && message_of(r1->Err_0) == message_of(r2->Err_0)),
{
}

} // verus!
