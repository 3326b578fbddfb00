//! Parameter collection: the built-in values every render receives, the
//! default value of each declared parameter, and the merge of the two into
//! the substitution map.

use vstd::prelude::*;
use vstd::string::StringExecFns;

use crate::schema::Parameter;


verus! {

/// The textual default of a parameter: the default string itself, the boolean
/// default as `true`/`false`, the default choice.
pub open spec fn spec_default_value(p: Parameter) -> Seq<char> {
    match p {
        Parameter::String { default, .. } => default@,
        Parameter::Boolean { default, .. } => if default {
            "true"@
        } else {
            "false"@
        },
        Parameter::Enum { default, .. } => default@,
    }
}

/// The textual default of a parameter.
pub fn default_value_of(p: &Parameter) -> (r: String)
    ensures
        r@ == spec_default_value(*p),
{
    match p {
        Parameter::String { default, .. } => default.clone(),
        Parameter::Boolean { default, .. } => {
            if *default {
                String::from_str("true")
            } else {
                String::from_str("false")
            }
        },
        Parameter::Enum { default, .. } => default.clone(),
    }
}

/// The four built-in substitution values, in their fixed order.
pub open spec fn spec_builtin_values(
    project_name: Seq<char>,
    author: Seq<char>,
    version: Seq<char>,
    date: Seq<char>,
) -> Seq<(Seq<char>, Seq<char>)> {
    seq![
        ("project_name"@, project_name),
        ("author"@, author),
        ("version"@, version),
        ("date"@, date),
    ]
}

/// The pairwise view of a list of string pairs.
pub open spec fn values_view(v: Seq<(String, String)>) -> Seq<(Seq<char>, Seq<char>)> {
    crate::trusted::pairs_view(v)
}

/// Builds the built-in substitution values — project name, author, tool
/// version and date — that every render receives.
pub fn builtin_values(project_name: &str, author: &str, version: &str, date: &str) -> (r: Vec<
    (String, String),
>)
    ensures
        values_view(r@) == spec_builtin_values(project_name@, author@, version@, date@),
{
    let mut r: Vec<(String, String)> = Vec::new();
    r.push((String::from_str("project_name"), project_name.to_owned()));
    r.push((String::from_str("author"), author.to_owned()));
    r.push((String::from_str("version"), version.to_owned()));
    r.push((String::from_str("date"), date.to_owned()));
    proof {
        assert(values_view(r@) =~= spec_builtin_values(project_name@, author@, version@, date@));
    }
    r
}

/// The defaults of a parameter list, in declaration order.
pub open spec fn spec_default_values(ps: Seq<(String, Parameter)>) -> Seq<(Seq<char>, Seq<char>)> {
    ps.map_values(|p: (String, Parameter)| (p.0@, spec_default_value(p.1)))
}

/// Extends the built-in values with the default of every declared parameter,
/// in declaration order. Built-ins come first; because the substitution map
/// is read with the later entry winning, a manifest parameter that reuses a
/// built-in name takes precedence.
#[verifier::loop_isolation(false)]
pub fn collect_with_defaults(
    builtins: Vec<(String, String)>,
    parameters: &Vec<(String, Parameter)>,
) -> (r: Vec<(String, String)>)
    ensures
        values_view(r@) == values_view(builtins@) + spec_default_values(parameters@),
{
    let mut r = builtins;
    let ghost base = r@;
    let n = parameters.len();
    let mut i: usize = 0;
    while i < n
        invariant
            i <= n,
            values_view(r@) =~= values_view(base) + spec_default_values(
                parameters@.subrange(0, i as int),
            ),
        decreases n - i,
    {
        let ghost pre = r@;
        let ghost pushed = (parameters@[i as int].0@, spec_default_value(parameters@[i as int].1));
        r.push((parameters[i].0.clone(), default_value_of(&parameters[i].1)));
        proof {
            assert(values_view(r@) =~= values_view(pre).push(pushed));
            assert(spec_default_values(parameters@.subrange(0, i as int + 1)) =~= spec_default_values(
                parameters@.subrange(0, i as int),
            ).push(pushed));
            assert(values_view(base) + spec_default_values(parameters@.subrange(0, i as int + 1))
                =~= (values_view(base) + spec_default_values(parameters@.subrange(0, i as int))).push(
                pushed,
            ));
        }
        i = i + 1;
    }
    proof {
        assert(parameters@.subrange(0, n as int) =~= parameters@);
    }
    r
}

/// Law: in a validated manifest every declared parameter's default satisfies
/// the parameter's own constraint, so a source that accepts the defaults
/// unconditionally never hands the renderer a rejected value.
pub proof fn lemma_validated_default_is_accepted(name: Seq<char>, p: Parameter)
    requires
        crate::validator::spec_validate_parameter(name, p) is Ok,
    ensures
        crate::schema::spec_validate_value(p, spec_default_value(p)) is Ok,
{
    match p {
        Parameter::Boolean { .. } => {
            crate::schema::lemma_boolean_tokens_are_lower_case();
        },
        _ => {},
    }
}

} // verus!
