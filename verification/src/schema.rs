//! The manifest schema: template metadata, typed parameters with their
//! validation rules, and file inclusion rules.

use vstd::prelude::*;
use vstd::string::StringExecFns;

use crate::strutil::{spec_join, spec_lower, join_with, str_eq, str_eq_ignore_ascii_case};
use crate::trusted::{regex_compile_error, regex_find, regex_matches, regex_validity};

verus! {

/// Template metadata from the manifest's `[template]` section.
#[derive(Debug, Clone)]
pub struct TemplateMetadata {
    /// Human-readable template name.
    pub name: String,
    /// One-line description of the template.
    pub description: String,
    /// Semantic version (MAJOR.MINOR.PATCH).
    pub version: String,
    /// Template authors or maintainers.
    pub authors: Vec<String>,
    /// HTTPS repository URL on the code-hosting domain.
    pub repository: String,
    /// Searchable tags; may be empty.
    pub tags: Vec<String>,
    /// Minimum Rust version required, if any.
    pub min_rust_version: Option<String>,
    /// Minimum scaffolder version required, if any.
    pub min_x402_cli_version: Option<String>,
}

/// A typed, validated template parameter.
#[derive(Debug, Clone)]
pub enum Parameter {
    /// Free-form string, optionally constrained by a regular expression.
    String {
        /// Default value for this parameter.
        default: String,
        /// Regular-expression source for validation, if any.
        pattern: Option<String>,
        /// Description of the parameter, if any.
        description: Option<String>,
    },
    /// Yes-or-no flag.
    Boolean {
        /// Default value.
        default: bool,
        /// Description of the parameter, if any.
        description: Option<String>,
    },
    /// One of a fixed list of choices.
    Enum {
        /// The allowed values.
        choices: Vec<String>,
        /// Default choice; must be one of `choices`.
        default: String,
        /// Description of the parameter, if any.
        description: Option<String>,
    },
}

/// File inclusion and exclusion rules from the manifest's `[files]` section.
#[derive(Debug, Clone)]
pub struct FileRules {
    /// Glob patterns of files the template wants copied.
    pub included: Vec<String>,
    /// Glob patterns of files the template wants left out.
    pub excluded: Vec<String>,
}

/// A whole parsed manifest.
#[derive(Debug, Clone)]
pub struct TemplateSchema {
    /// The `[template]` metadata section.
    pub template: TemplateMetadata,
    /// Declared parameters, in manifest order, if any.
    pub parameters: Option<Vec<(String, Parameter)>>,
    /// File rules, if any.
    pub files: Option<FileRules>,
}

/// The six textual forms a boolean parameter accepts, compared without regard
/// to ASCII case.
pub open spec fn is_boolean_token(v: Seq<char>) -> bool {
    ||| spec_lower(v) == "true"@
    ||| spec_lower(v) == "false"@
    ||| spec_lower(v) == "yes"@
    ||| spec_lower(v) == "no"@
    ||| spec_lower(v) == "1"@
    ||| spec_lower(v) == "0"@
}

/// Whether some element of `choices` has exactly the characters of `v`.
pub open spec fn choices_contain(choices: Seq<String>, v: Seq<char>) -> bool {
    exists|i: int| 0 <= i < choices.len() && choices[i]@ == v
}

/// What validating a value against a parameter yields: acceptance, or the
/// message explaining the rejection.
pub open spec fn spec_validate_value(p: Parameter, v: Seq<char>) -> Result<(), Seq<char>> {
    match p {
        Parameter::String { pattern: Some(pat), .. } => {
            match regex_compile_error(pat@) {
                Some(e) => Err("Invalid pattern: "@ + e),
                None => if regex_matches(pat@, v) {
                    Ok(())
                } else {
                    Err("Value '"@ + v + "' does not match pattern '"@ + pat@ + "'"@)
                },
            }
        },
        Parameter::String { pattern: None, .. } => Ok(()),
        Parameter::Boolean { .. } => {
            if is_boolean_token(v) {
                Ok(())
            } else {
                Err("Expected boolean value, got '"@ + v + "'"@)
            }
        },
        Parameter::Enum { choices, .. } => {
            if choices_contain(choices@, v) {
                Ok(())
            } else {
                Err("Value '"@ + v + "' not in allowed options: "@ + spec_join(choices@, ", "@))
            }
        },
    }
}

/// Each of the six boolean tokens is already in lower case, so lowering it
/// changes nothing.
pub(crate) proof fn lemma_boolean_tokens_are_lower_case()
    ensures
        spec_lower("true"@) == "true"@,
        spec_lower("false"@) == "false"@,
        spec_lower("yes"@) == "yes"@,
        spec_lower("no"@) == "no"@,
        spec_lower("1"@) == "1"@,
        spec_lower("0"@) == "0"@,
{
    reveal_strlit("true");
    reveal_strlit("false");
    reveal_strlit("yes");
    reveal_strlit("no");
    reveal_strlit("1");
    reveal_strlit("0");
    assert(spec_lower("true"@) =~= "true"@);
    assert(spec_lower("false"@) =~= "false"@);
    assert(spec_lower("yes"@) =~= "yes"@);
    assert(spec_lower("no"@) =~= "no"@);
    assert(spec_lower("1"@) =~= "1"@);
    assert(spec_lower("0"@) =~= "0"@);
}

/// Law: a boolean parameter accepts exactly the case-insensitive tokens
/// `true`, `false`, `yes`, `no`, `1`, `0`, and rejects every other string.
pub proof fn lemma_boolean_accepts_exactly_tokens(
    default: bool,
    description: Option<String>,
    v: Seq<char>,
)
    ensures
        spec_validate_value(Parameter::Boolean { default, description }, v) is Ok
            <==> is_boolean_token(v),
{
}

impl Parameter {
    /// Validates a value against this parameter's constraint: a regular
    /// expression searched anywhere in the value for strings, one of the six
    /// case-insensitive literal tokens for booleans, exact membership in the
    /// choices for enumerations. Returns the rejection message otherwise.
    pub fn validate(&self, value: &str) -> (r: Result<(), String>)
        ensures
            r is Ok <==> spec_validate_value(*self, value@) is Ok,
            r matches Err(m) ==> spec_validate_value(*self, value@) == Err::<(), Seq<char>>(m@),
    {
        match self {
            Parameter::String { pattern, .. } => {
                match pattern {
                    Some(pat) => {
                        match regex_validity(pat.as_str()) {
                            Some(e) => Err(
                                String::from_str("Invalid pattern: ").concat(e.as_str()),
                            ),
                            None => {
                                if regex_find(pat.as_str(), value) {
                                    Ok(())
                                } else {
                                    Err(
                                        String::from_str("Value '").concat(value).concat(
                                            "' does not match pattern '",
                                        ).concat(pat.as_str()).concat("'"),
                                    )
                                }
                            },
                        }
                    },
                    None => Ok(()),
                }
            },
            Parameter::Boolean { .. } => {
                let ok = str_eq_ignore_ascii_case(value, "true") || str_eq_ignore_ascii_case(
                    value,
                    "false",
                ) || str_eq_ignore_ascii_case(value, "yes") || str_eq_ignore_ascii_case(value, "no")
                    || str_eq_ignore_ascii_case(value, "1") || str_eq_ignore_ascii_case(value, "0");
                proof {
                    lemma_boolean_tokens_are_lower_case();
                }
                if ok {
                    Ok(())
                } else {
                    Err(String::from_str("Expected boolean value, got '").concat(value).concat("'"))
                }
            },
            Parameter::Enum { choices, .. } => {
                let mut i: usize = 0;
                let n = choices.len();
                let mut found = false;
                while i < n
                    invariant
                        i <= n,
                        n == choices@.len(),
                        found <==> exists|j: int| 0 <= j < i && choices@[j]@ == value@,
                    decreases n - i,
                {
                    if str_eq(choices[i].as_str(), value) {
                        found = true;
                    }
                    i = i + 1;
                }
                if found {
                    Ok(())
                } else {
                    Err(
                        String::from_str("Value '").concat(value).concat(
                            "' not in allowed options: ",
                        ).concat(join_with(choices, ", ").as_str()),
                    )
                }
            },
        }
    }
}

} // verus!
