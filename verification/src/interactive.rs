//! The text shaping behind the interactive prompts: parameter names turned
//! into readable prompt labels. The terminal work itself — menus, colored
//! output — is the surrounding program's concern.

use vstd::prelude::*;
use vstd::string::StringExecFns;

use crate::strutil::{
    join_with, lemma_join_elems, replace_char, spec_join_elems, spec_replace_char, spec_split,
    spec_upper_first, str_split, strings_view, upper_first,
};

verus! {

/// The title-cased image of a string: each underscore-separated word with its
/// first character mapped to upper case (ASCII letters), words joined by
/// single spaces.
pub open spec fn spec_title_case(s: Seq<char>) -> Seq<char> {
    spec_join_elems(spec_split(s, '_').map_values(|w: Seq<char>| spec_upper_first(w)), " "@)
}

/// Capitalizes each underscore-separated word and joins them with spaces.
#[verifier::loop_isolation(false)]
pub fn to_title_case(s: &str) -> (r: String)
    ensures
        r@ == spec_title_case(s@),
{
    let parts = str_split(s, '_');
    let ghost mapped = spec_split(s@, '_').map_values(|w: Seq<char>| spec_upper_first(w));
    let mut words: Vec<String> = Vec::new();
    let n = parts.len();
    let mut i: usize = 0;
    proof {
        assert(strings_view(parts@).len() == parts@.len());
    }
    while i < n
        invariant
            i <= n,
            strings_view(words@) =~= mapped.subrange(0, i as int),
        decreases n - i,
    {
        let ghost pre = words@;
        words.push(upper_first(parts[i].as_str()));
        proof {
            assert(strings_view(parts@)[i as int] == parts@[i as int]@);
            assert(mapped[i as int] == spec_upper_first(parts@[i as int]@));
            assert(strings_view(words@) =~= strings_view(pre).push(
                spec_upper_first(parts@[i as int]@),
            ));
            assert(strings_view(words@) =~= mapped.subrange(0, i as int + 1));
        }
        i = i + 1;
    }
    proof {
        assert(mapped.subrange(0, n as int) =~= mapped);
        lemma_join_elems(words@, " "@);
    }
    join_with(&words, " ")
}

/// The prompt label of a parameter: underscores read as spaces, the first
/// character capitalized, and the description appended in parentheses when
/// there is one.
pub open spec fn spec_format_prompt(name: Seq<char>, description: Option<Seq<char>>) -> Seq<char> {
    let label = spec_title_case(spec_replace_char(name, '_', ' '));
    match description {
        Some(d) => label + " ("@ + d + ")"@,
        None => label,
    }
}

/// Shapes a parameter name, and its description if it has one, into the
/// prompt label shown to the user.
pub fn format_prompt(name: &str, description: Option<&str>) -> (r: String)
    ensures
        r@ == spec_format_prompt(name@, match description {
            Some(d) => Some(d@),
            None => None,
        }),
{
    let spaced = replace_char(name, '_', ' ');
    let label = to_title_case(spaced.as_str());
    match description {
        Some(d) => label.concat(" (").concat(d).concat(")"),
        None => label,
    }
}

} // verus!
