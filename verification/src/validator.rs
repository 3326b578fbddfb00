//! Manifest validation: every structural and semantic rule a template
//! manifest must satisfy, checked in order with the first failure reported.

use vstd::prelude::*;
use vstd::string::StrSliceExecFns;
use vstd::string::StringExecFns;

use crate::error::{Error, ErrorV};
use crate::schema::{
    choices_contain, spec_validate_value, FileRules, Parameter, TemplateMetadata, TemplateSchema,
};
use crate::strutil::{spec_starts_with, str_eq, str_starts_with};
use crate::trusted::{
    regex_compile_error, regex_matches, regex_validity, semver_parse_error, semver_validity,
};

verus! {

/// Validates a manifest against the schema's rules.
pub struct Validator;

/// A validation error naming the offending field.
pub open spec fn verr(field: Seq<char>, message: Seq<char>) -> ErrorV {
    ErrorV::ValidationError { field, message }
}

/// The view of a unit-or-error result.
pub open spec fn unit_result_view(r: &Result<(), Error>) -> Result<(), ErrorV> {
    match r {
        Ok(()) => Ok(()),
        Err(e) => Err(e@),
    }
}

/// What validating the `[template]` metadata section yields: the checks of
/// the schema, in order, stopping at the first failure.
pub open spec fn spec_validate_metadata(m: TemplateMetadata) -> Result<(), ErrorV> {
    if m.name@.len() == 0 {
        Err(verr("template.name"@, "Template name is required"@))
    } else if m.name@.len() > 100 {
        Err(verr("template.name"@, "Template name must be 100 characters or less"@))
    } else if m.description@.len() == 0 {
        Err(verr("template.description"@, "Template description is required"@))
    } else if m.description@.len() < 10 || m.description@.len() > 200 {
        Err(verr("template.description"@, "Description must be 10-200 characters"@))
    } else if semver_parse_error(m.version@) is Some {
        Err(
            verr(
                "template.version"@,
                "Invalid semantic version: "@ + semver_parse_error(m.version@)->Some_0,
            ),
        )
    } else if m.authors@.len() == 0 {
        Err(verr("template.authors"@, "At least one author is required"@))
    } else if !spec_starts_with(m.repository@, "https://github.com/"@) {
        Err(
            verr(
                "template.repository"@,
                "Repository must be an HTTPS GitHub URL (https://github.com/...)"@,
            ),
        )
    } else if m.min_rust_version matches Some(v) && semver_parse_error(v@) is Some {
        Err(
            verr(
                "template.min_rust_version"@,
                "Invalid semantic version: "@ + m.min_rust_version.unwrap()@,
            ),
        )
    } else if m.min_x402_cli_version matches Some(v) && semver_parse_error(v@) is Some {
        Err(
            verr(
                "template.min_x402_cli_version"@,
                "Invalid semantic version: "@ + m.min_x402_cli_version.unwrap()@,
            ),
        )
    } else {
        Ok(())
    }
}

/// What validating one named parameter declaration yields.
pub open spec fn spec_validate_parameter(name: Seq<char>, p: Parameter) -> Result<(), ErrorV> {
    match p {
        Parameter::String { pattern: Some(pat), default, .. } => {
            match regex_compile_error(pat@) {
                Some(e) => Err(verr("parameters."@ + name + ".pattern"@, "Invalid regex: "@ + e)),
                None => match spec_validate_value(p, default@) {
                    Ok(()) => Ok(()),
                    Err(msg) => Err(verr("parameters."@ + name + ".default"@, msg)),
                },
            }
        },
        Parameter::String { pattern: None, .. } => Ok(()),
        Parameter::Enum { choices, default, .. } => {
            if choices@.len() == 0 {
                Err(verr("parameters."@ + name + ".enum"@, "Enum must have at least one choice"@))
            } else if !choices_contain(choices@, default@) {
                Err(
                    verr(
                        "parameters."@ + name + ".default"@,
                        "Default value '"@ + default@ + "' not in enum choices"@,
                    ),
                )
            } else {
                Ok(())
            }
        },
        Parameter::Boolean { .. } => Ok(()),
    }
}

/// What validating a list of named parameters yields: the first failure, in
/// list order.
pub open spec fn spec_validate_parameters(ps: Seq<(String, Parameter)>) -> Result<(), ErrorV>
    decreases ps.len(),
{
    if ps.len() == 0 {
        Ok(())
    } else {
        match spec_validate_parameter(ps[0].0@, ps[0].1) {
            Err(e) => Err(e),
            Ok(()) => spec_validate_parameters(ps.drop_first()),
        }
    }
}

/// What validating one glob pattern yields: only emptiness is rejected.
pub open spec fn spec_validate_glob(pattern: Seq<char>, context: Seq<char>) -> Result<(), ErrorV> {
    if pattern.len() == 0 {
        Err(verr("files."@ + context, "Glob pattern cannot be empty"@))
    } else {
        Ok(())
    }
}

/// What validating a pattern list yields: the first failure, in list order.
pub open spec fn spec_validate_patterns(pats: Seq<String>, context: Seq<char>) -> Result<
    (),
    ErrorV,
>
    decreases pats.len(),
{
    if pats.len() == 0 {
        Ok(())
    } else {
        match spec_validate_glob(pats[0]@, context) {
            Err(e) => Err(e),
            Ok(()) => spec_validate_patterns(pats.drop_first(), context),
        }
    }
}

/// What validating the `[files]` rules yields.
pub open spec fn spec_validate_files(files: FileRules) -> Result<(), ErrorV> {
    match spec_validate_patterns(files.included@, "included"@) {
        Err(e) => Err(e),
        Ok(()) => spec_validate_patterns(files.excluded@, "excluded"@),
    }
}

/// What validating a whole manifest yields: metadata first, then each
/// parameter in declaration order, then the file rules.
pub open spec fn spec_validate_schema(s: TemplateSchema) -> Result<(), ErrorV> {
    match spec_validate_metadata(s.template) {
        Err(e) => Err(e),
        Ok(()) => match (match s.parameters {
            Some(ps) => spec_validate_parameters(ps@),
            None => Ok(()),
        }) {
            Err(e) => Err(e),
            Ok(()) => match s.files {
                Some(files) => spec_validate_files(files),
                None => Ok(()),
            },
        },
    }
}

impl Validator {
    /// Validates the metadata section, reporting the first violated rule.
    fn validate_metadata(m: &TemplateMetadata) -> (r: Result<(), Error>)
        ensures
            unit_result_view(&r) == spec_validate_metadata(*m),
    {
        let name_len = m.name.as_str().unicode_len();
        if name_len == 0 {
            return Err(
                Error::ValidationError {
                    field: String::from_str("template.name"),
                    message: String::from_str("Template name is required"),
                },
            );
        }
        if name_len > 100 {
            return Err(
                Error::ValidationError {
                    field: String::from_str("template.name"),
                    message: String::from_str("Template name must be 100 characters or less"),
                },
            );
        }
        let desc_len = m.description.as_str().unicode_len();
        if desc_len == 0 {
            return Err(
                Error::ValidationError {
                    field: String::from_str("template.description"),
                    message: String::from_str("Template description is required"),
                },
            );
        }
        if desc_len < 10 || desc_len > 200 {
            return Err(
                Error::ValidationError {
                    field: String::from_str("template.description"),
                    message: String::from_str("Description must be 10-200 characters"),
                },
            );
        }
        if let Some(e) = semver_validity(m.version.as_str()) {
            return Err(
                Error::ValidationError {
                    field: String::from_str("template.version"),
                    message: String::from_str("Invalid semantic version: ").concat(e.as_str()),
                },
            );
        }
        if m.authors.len() == 0 {
            return Err(
                Error::ValidationError {
                    field: String::from_str("template.authors"),
                    message: String::from_str("At least one author is required"),
                },
            );
        }
        if !str_starts_with(m.repository.as_str(), "https://github.com/") {
            return Err(
                Error::ValidationError {
                    field: String::from_str("template.repository"),
                    message: String::from_str(
                        "Repository must be an HTTPS GitHub URL (https://github.com/...)",
                    ),
                },
            );
        }
        if let Some(v) = &m.min_rust_version {
            if semver_validity(v.as_str()).is_some() {
                return Err(
                    Error::ValidationError {
                        field: String::from_str("template.min_rust_version"),
                        message: String::from_str("Invalid semantic version: ").concat(v.as_str()),
                    },
                );
            }
        }
        if let Some(v) = &m.min_x402_cli_version {
            if semver_validity(v.as_str()).is_some() {
                return Err(
                    Error::ValidationError {
                        field: String::from_str("template.min_x402_cli_version"),
                        message: String::from_str("Invalid semantic version: ").concat(v.as_str()),
                    },
                );
            }
        }
        Ok(())
    }

    /// Validates a single parameter declaration: a declared pattern must
    /// compile and the default must satisfy the parameter's own constraint;
    /// an enumeration must have choices and its default must be one of them.
    #[verifier::loop_isolation(false)]
    pub fn validate_parameter(name: &str, param: &Parameter) -> (r: Result<(), Error>)
        ensures
            unit_result_view(&r) == spec_validate_parameter(name@, *param),
    {
        match param {
            Parameter::String { pattern, default, .. } => {
                match pattern {
                    Some(pat) => {
                        if let Some(e) = regex_validity(pat.as_str()) {
                            return Err(
                                Error::ValidationError {
                                    field: String::from_str("parameters.").concat(name).concat(
                                        ".pattern",
                                    ),
                                    message: String::from_str("Invalid regex: ").concat(e.as_str()),
                                },
                            );
                        }
                        match param.validate(default.as_str()) {
                            Ok(()) => Ok(()),
                            Err(msg) => Err(
                                Error::ValidationError {
                                    field: String::from_str("parameters.").concat(name).concat(
                                        ".default",
                                    ),
                                    message: msg,
                                },
                            ),
                        }
                    },
                    None => Ok(()),
                }
            },
            Parameter::Enum { choices, default, .. } => {
                if choices.len() == 0 {
                    return Err(
                        Error::ValidationError {
                            field: String::from_str("parameters.").concat(name).concat(".enum"),
                            message: String::from_str("Enum must have at least one choice"),
                        },
                    );
                }
                let mut i: usize = 0;
                let n = choices.len();
                let mut found = false;
                while i < n
                    invariant
                        i <= n,
                        n == choices@.len(),
                        found <==> exists|j: int| 0 <= j < i && choices@[j]@ == default@,
                    decreases n - i,
                {
                    if str_eq(choices[i].as_str(), default.as_str()) {
                        found = true;
                    }
                    i = i + 1;
                }
                if !found {
                    return Err(
                        Error::ValidationError {
                            field: String::from_str("parameters.").concat(name).concat(".default"),
                            message: String::from_str("Default value '").concat(
                                default.as_str(),
                            ).concat("' not in enum choices"),
                        },
                    );
                }
                Ok(())
            },
            Parameter::Boolean { .. } => Ok(()),
        }
    }

    /// Validates one glob pattern: it must be non-empty; deeper syntax is
    /// deliberately not checked.
    pub fn validate_glob_pattern(pattern: &str, context: &str) -> (r: Result<(), Error>)
        ensures
            unit_result_view(&r) == spec_validate_glob(pattern@, context@),
    {
        if pattern.is_empty() {
            return Err(
                Error::ValidationError {
                    field: String::from_str("files.").concat(context),
                    message: String::from_str("Glob pattern cannot be empty"),
                },
            );
        }
        Ok(())
    }

    /// Validates every pattern of one list, in order.
    #[verifier::loop_isolation(false)]
    fn validate_patterns(pats: &Vec<String>, context: &str) -> (r: Result<(), Error>)
        ensures
            unit_result_view(&r) == spec_validate_patterns(pats@, context@),
    {
        let n = pats.len();
        let mut i: usize = 0;
        proof {
            assert(pats@.subrange(0, n as int) =~= pats@);
        }
        while i < n
            invariant
                i <= n,
                n == pats@.len(),
                spec_validate_patterns(pats@, context@) == spec_validate_patterns(
                    pats@.subrange(i as int, n as int),
                    context@,
                ),
            decreases n - i,
        {
            let ghost rest = pats@.subrange(i as int, n as int);
            proof {
                assert(rest[0] == pats@[i as int]);
                assert(rest.drop_first() =~= pats@.subrange(i as int + 1, n as int));
            }
            match Self::validate_glob_pattern(pats[i].as_str(), context) {
                Ok(()) => {},
                Err(e) => {
                    return Err(e);
                },
            }
            i = i + 1;
        }
        proof {
            assert(pats@.subrange(n as int, n as int).len() == 0);
        }
        Ok(())
    }

    /// Validates a whole manifest: every rule of the schema, with the first
    /// failure reported and nothing else changed. A manifest is either fully
    /// valid or rejected outright.
    #[verifier::loop_isolation(false)]
    pub fn validate_schema(schema: &TemplateSchema) -> (r: Result<(), Error>)
        ensures
            unit_result_view(&r) == spec_validate_schema(*schema),
    {
        match Self::validate_metadata(&schema.template) {
            Ok(()) => {},
            Err(e) => {
                return Err(e);
            },
        }
        match &schema.parameters {
            Some(params) => {
                let n = params.len();
                let mut i: usize = 0;
                proof {
                    assert(params@.subrange(0, n as int) =~= params@);
                }
                while i < n
                    invariant
                        i <= n,
                        n == params@.len(),
                        spec_validate_parameters(params@) == spec_validate_parameters(
                            params@.subrange(i as int, n as int),
                        ),
                    decreases n - i,
                {
                    let ghost rest = params@.subrange(i as int, n as int);
                    proof {
                        assert(rest[0] == params@[i as int]);
                        assert(rest.drop_first() =~= params@.subrange(i as int + 1, n as int));
                    }
                    match Self::validate_parameter(params[i].0.as_str(), &params[i].1) {
                        Ok(()) => {},
                        Err(e) => {
                            return Err(e);
                        },
                    }
                    i = i + 1;
                }
                proof {
                    assert(params@.subrange(n as int, n as int).len() == 0);
                }
            },
            None => {},
        }
        match &schema.files {
            Some(files) => {
                match Self::validate_patterns(&files.included, "included") {
                    Ok(()) => {},
                    Err(e) => {
                        return Err(e);
                    },
                }
                Self::validate_patterns(&files.excluded, "excluded")
            },
            None => Ok(()),
        }
    }
}

/// Law: validation is a function of the manifest alone, so validating the
/// same manifest repeatedly yields the same outcome with the same message.
pub proof fn lemma_validation_deterministic(a: TemplateSchema, b: TemplateSchema)
    requires
        a == b,
    ensures
        spec_validate_schema(a) == spec_validate_schema(b),
{
}

/// Law: a string parameter with a pattern is accepted exactly when the
/// pattern compiles and its default matches the pattern.
pub proof fn lemma_string_default_must_match_pattern(
    name: Seq<char>,
    default: String,
    pattern: String,
    description: Option<String>,
)
    ensures
        ({
            let p = Parameter::String { default, pattern: Some(pattern), description };
            spec_validate_parameter(name, p) is Ok <==> (regex_compile_error(pattern@) is None
                && regex_matches(pattern@, default@))
        }),
{
}

/// Law: an enumeration parameter is accepted exactly when it has at least one
/// choice and its default is one of the choices.
pub proof fn lemma_enum_default_must_be_choice(
    name: Seq<char>,
    choices: Vec<String>,
    default: String,
    description: Option<String>,
)
    ensures
        ({
            let p = Parameter::Enum { choices, default, description };
            spec_validate_parameter(name, p) is Ok <==> (choices@.len() > 0 && choices_contain(
                choices@,
                default@,
            ))
        }),
{
}

} // verus!
