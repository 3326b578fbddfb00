//! The library's trusted boundary: every call into an outside crate, or into a
//! part of std that vstd gives no specification, lives here behind a wrapper
//! whose contract Verus believes. Results that are functions of the arguments
//! alone but too large to state are given names (`uninterp spec fn`); results
//! that depend on the clock or the machine get no name.

use vstd::prelude::*;

use regex::Error as RegexCompileError;
use serde_json::Error as JsonParseError;
use toml::de::Error as TomlParseError;

verus! {

/// Whether a regular-expression source fails to compile, and with which
/// message; `None` when it compiles. Deterministic in the pattern alone.
pub uninterp spec fn regex_compile_error(pattern: Seq<char>) -> Option<Seq<char>>;

/// Whether a regular expression matches (finds a match anywhere in) a text.
/// Deterministic in pattern and text.
pub uninterp spec fn regex_matches(pattern: Seq<char>, text: Seq<char>) -> bool;

/// Whether a version string fails to parse as a semantic version, and with
/// which message; `None` when it parses. Deterministic in the string alone.
pub uninterp spec fn semver_parse_error(version: Seq<char>) -> Option<Seq<char>>;

/// What rendering a template over a list of string-valued variables produces:
/// the rendered text, or `Err((parse_stage, message))` where `parse_stage`
/// says whether parsing (rather than rendering) failed. A function of the
/// template text and the variables alone, applicable only to texts that
/// `liquid_pure` admits.
pub uninterp spec fn liquid_render(content: Seq<char>, params: Seq<(Seq<char>, Seq<char>)>) -> Result<
    Seq<char>,
    (bool, Seq<char>),
>;

/// Whether rendering a template text depends on the text and the variables
/// alone. The engine's `date` filter reads the system clock when its input
/// is `now` or `today`, so such texts render differently at different
/// moments and nothing names their output.
pub uninterp spec fn liquid_pure(content: Seq<char>) -> bool;

/// What `str::to_lowercase` returns; a function of the characters alone.
pub uninterp spec fn lower_of(s: Seq<char>) -> Seq<char>;

/// The view of an optional string.
pub open spec fn opt_string_view(o: &Option<String>) -> Option<Seq<char>> {
    match o {
        Some(s) => Some(s@),
        None => None,
    }
}

/// The pairwise view of a list of string pairs.
pub open spec fn pairs_view(v: Seq<(String, String)>) -> Seq<(Seq<char>, Seq<char>)> {
    v.map_values(|p: (String, String)| (p.0@, p.1@))
}

/// The error type of std's file and stream operations, opaque to the proofs.
#[verifier::external_type_specification]
#[verifier::external_body]
pub struct ExIoError(std::io::Error);

/// The error type of the manifest parser, opaque to the proofs.
#[verifier::external_type_specification]
#[verifier::external_body]
pub struct ExTomlParseError(TomlParseError);

/// The error type of the JSON parser, opaque to the proofs.
#[verifier::external_type_specification]
#[verifier::external_body]
pub struct ExJsonParseError(JsonParseError);

/// The error type of the regular-expression compiler, opaque to the proofs.
#[verifier::external_type_specification]
#[verifier::external_body]
pub struct ExRegexCompileError(RegexCompileError);

/// Relies on the `Display` impl of `std::io::Error`: its message; nothing is
/// promised of the text.
#[verifier::external_body]
pub(crate) fn io_error_message(e: &std::io::Error) -> (r: String) {
    format!("{}", e)
}

/// Relies on the `Display` impl of `toml::de::Error`: its message; nothing is
/// promised of the text.
#[verifier::external_body]
pub(crate) fn toml_error_message(e: &TomlParseError) -> (r: String) {
    format!("{}", e)
}

/// Relies on the `Display` impl of `serde_json::Error`: its message; nothing
/// is promised of the text.
#[verifier::external_body]
pub(crate) fn json_error_message(e: &JsonParseError) -> (r: String) {
    format!("{}", e)
}

/// Relies on the `Display` impl of `regex::Error`: its message; nothing is
/// promised of the text.
#[verifier::external_body]
pub(crate) fn regex_error_message(e: &RegexCompileError) -> (r: String) {
    format!("{}", e)
}

/// Relies on `regex::Regex::new`: it compiles a pattern, or reports why not,
/// deterministically in the pattern.
#[verifier::external_body]
pub(crate) fn regex_validity(pattern: &str) -> (r: Option<String>)
    ensures
        opt_string_view(&r) == regex_compile_error(pattern@),
{
    match regex::Regex::new(pattern) {
        Ok(_) => None,
        Err(e) => Some(format!("{}", e)),
    }
}

/// Relies on `regex::Regex::is_match`: it searches for a match anywhere in
/// the text, deterministically in pattern and text.
#[verifier::external_body]
pub(crate) fn regex_find(pattern: &str, text: &str) -> (r: bool)
    requires
        regex_compile_error(pattern@) is None,
    ensures
        r == regex_matches(pattern@, text@),
{
    match regex::Regex::new(pattern) {
        Ok(re) => re.is_match(text),
        Err(_) => false,
    }
}

/// Relies on `semver::Version::parse`: it accepts a semantic-version string,
/// or reports why not, deterministically in the string.
#[verifier::external_body]
pub(crate) fn semver_validity(version: &str) -> (r: Option<String>)
    ensures
        opt_string_view(&r) == semver_parse_error(version@),
{
    match semver::Version::parse(version) {
        Ok(_) => None,
        Err(e) => Some(format!("{}", e)),
    }
}

/// The view of a render outcome.
pub open spec fn render_outcome_view(r: &Result<String, (bool, String)>) -> Result<
    Seq<char>,
    (bool, Seq<char>),
> {
    match r {
        Ok(s) => Ok(s@),
        Err((parse_stage, m)) => Err((*parse_stage, m@)),
    }
}

/// Relies on liquid's `ParserBuilder::build`, `Parser::parse` and
/// `Template::render`: together they turn a template and a map of
/// string-valued variables into rendered text. For a text that never reaches
/// the engine's clock the outcome depends on text and variables alone.
#[verifier::external_body]
pub(crate) fn liquid_apply(content: &str, params: &Vec<(String, String)>) -> (r: Result<
    String,
    (bool, String),
>)
    ensures
        liquid_pure(content@) ==> render_outcome_view(&r) == liquid_render(
            content@,
            pairs_view(params@),
        ),
{
    let mut globals = liquid::Object::new();
    for (key, value) in params.iter() {
        globals.insert(key.clone().into(), liquid::model::Value::scalar(value.clone()));
    }
    let template = liquid::ParserBuilder::with_stdlib()
        .build()
        .and_then(|parser| parser.parse(content))
        .map_err(|e| (true, format!("{}", e)))?;
    template.render(&globals).map_err(|e| (false, format!("{}", e)))
}

/// Relies on `str::to_lowercase`: the result depends on the characters alone.
#[verifier::external_body]
pub(crate) fn str_to_lowercase(s: &str) -> (r: String)
    ensures
        r@ == lower_of(s@),
        s@.len() == 0 ==> r@.len() == 0,
{
    s.to_lowercase()
}

/// Relies on `String::push`: it appends exactly the given character.
#[verifier::external_body]
pub(crate) fn push_char(s: &mut String, c: char)
    ensures
        final(s)@ == old(s)@.push(c),
{
    s.push(c);
}

/// Relies on `core::str::from_utf8`: it decodes exactly the valid UTF-8 byte
/// strings, to the text whose encoding the bytes are.
#[verifier::external_body]
pub(crate) fn decode_utf8(bytes: &Vec<u8>) -> (r: Option<String>)
    ensures
        r is Some <==> vstd::utf8::valid_utf8(bytes@),
        r matches Some(s) ==> vstd::utf8::encode_utf8(s@) == bytes@,
{
    match core::str::from_utf8(bytes.as_slice()) {
        Ok(s) => Some(s.to_owned()),
        Err(_) => None,
    }
}

/// Relies on `chrono::Utc::now`: seconds since the Unix epoch, from the
/// system clock; nothing is promised of the value.
#[verifier::external_body]
pub(crate) fn now_unix() -> (r: i64) {
    chrono::Utc::now().timestamp()
}

/// Relies on `dirs::cache_dir`: the user's cache directory, if the platform
/// reports one whose path is valid Unicode; nothing is promised of the value.
#[verifier::external_body]
pub(crate) fn os_cache_dir() -> (r: Option<String>) {
    dirs::cache_dir().and_then(|p| p.to_str().map(|s| s.to_owned()))
}

} // verus!
