//! Template location handling: turning a user-supplied reference into a full
//! repository URL, and that into the archive URL to fetch. The fetch itself
//! is the surrounding program's concern.

use vstd::prelude::*;
use vstd::string::StringExecFns;

use crate::error::{Error, ErrorV};
use crate::strutil::{
    spec_find_first, spec_split, spec_starts_with, str_contains_char, str_split, str_starts_with,
    strings_view,
};

verus! {

/// A string holds `://` somewhere.
pub open spec fn spec_has_scheme(s: Seq<char>) -> bool {
    exists|i: int| 0 <= i <= s.len() - 3 && #[trigger] s.subrange(i, i + 3) == "://"@
}

/// Whether `://` occurs anywhere in a string.
#[verifier::loop_isolation(false)]
pub fn has_scheme(s: &str) -> (r: bool)
    ensures
        r == spec_has_scheme(s@),
{
    let n = s.unicode_len();
    if n < 3 {
        proof {
            assert(!spec_has_scheme(s@));
        }
        return false;
    }
    let mut i: usize = 0;
    proof {
        reveal_strlit("://");
    }
    while i <= n - 3
        invariant
            n >= 3,
            i <= n - 2,
            forall|j: int| 0 <= j < i ==> #[trigger] s@.subrange(j, j + 3) != "://"@,
        decreases n - i,
    {
        if s.get_char(i) == ':' && s.get_char(i + 1) == '/' && s.get_char(i + 2) == '/' {
            proof {
                assert(s@.subrange(i as int, i as int + 3) =~= "://"@);
            }
            return true;
        }
        proof {
            assert(s@.subrange(i as int, i as int + 3)[0] == s@[i as int]);
            assert(s@.subrange(i as int, i as int + 3)[1] == s@[i as int + 1]);
            assert(s@.subrange(i as int, i as int + 3)[2] == s@[i as int + 2]);
            assert(s@.subrange(i as int, i as int + 3) != "://"@);
        }
        i = i + 1;
    }
    proof {
        assert forall|j: int| 0 <= j <= s@.len() - 3 implies #[trigger] s@.subrange(j, j + 3)
            != "://"@ by {
            assert(j < i);
        }
    }
    false
}

/// What normalizing a template URL yields: a full repository URL is kept; an
/// `owner/repo` shorthand (a slash, but no scheme) is put under the hosting
/// domain; anything without a slash, or with a scheme on another domain, is
/// rejected.
pub open spec fn spec_normalize_github_url(url: Seq<char>) -> Result<Seq<char>, ErrorV> {
    if spec_find_first(url, '/') == -1 {
        Err(
            crate::validator::verr(
                "template"@,
                "Template URL must be in format 'user/repo' or full GitHub URL"@,
            ),
        )
    } else if spec_starts_with(url, "https://github.com/"@) {
        Ok(url)
    } else if !spec_has_scheme(url) {
        Ok("https://github.com/"@ + url)
    } else {
        Err(
            crate::validator::verr(
                "template"@,
                "Template URL must be a GitHub URL or 'user/repo' shorthand"@,
            ),
        )
    }
}

/// The view of a string-or-error result.
pub open spec fn url_result_view(r: &Result<String, Error>) -> Result<Seq<char>, ErrorV> {
    match r {
        Ok(s) => Ok(s@),
        Err(e) => Err(e@),
    }
}

/// Normalizes a template URL: keeps a full repository URL, expands an
/// `owner/repo` shorthand under the hosting domain, and rejects anything
/// else.
pub fn normalize_github_url(url: &str) -> (r: Result<String, Error>)
    ensures
        url_result_view(&r) == spec_normalize_github_url(url@),
{
    if !str_contains_char(url, '/') {
        return Err(
            Error::ValidationError {
                field: String::from_str("template"),
                message: String::from_str(
                    "Template URL must be in format 'user/repo' or full GitHub URL",
                ),
            },
        );
    }
    if str_starts_with(url, "https://github.com/") {
        return Ok(url.to_owned());
    }
    if !has_scheme(url) {
        return Ok(String::from_str("https://github.com/").concat(url));
    }
    Err(
        Error::ValidationError {
            field: String::from_str("template"),
            message: String::from_str("Template URL must be a GitHub URL or 'user/repo' shorthand"),
        },
    )
}

/// The string without its trailing occurrences of a character.
pub open spec fn spec_trim_trailing(s: Seq<char>, c: char) -> Seq<char>
    decreases s.len(),
{
    if s.len() > 0 && s[s.len() - 1] == c {
        spec_trim_trailing(s.drop_last(), c)
    } else {
        s
    }
}

/// Drops every trailing occurrence of a character.
#[verifier::loop_isolation(false)]
pub fn trim_trailing(s: &str, c: char) -> (r: String)
    ensures
        r@ == spec_trim_trailing(s@, c),
{
    let n = s.unicode_len();
    let mut end: usize = n;
    proof {
        assert(s@.subrange(0, n as int) =~= s@);
    }
    while end > 0 && s.get_char(end - 1) == c
        invariant
            end <= n,
            spec_trim_trailing(s@, c) == spec_trim_trailing(s@.subrange(0, end as int), c),
        decreases end,
    {
        proof {
            assert(s@.subrange(0, end as int).drop_last() =~= s@.subrange(0, end as int - 1));
            assert(s@.subrange(0, end as int)[end as int - 1] == s@[end as int - 1]);
        }
        end = end - 1;
    }
    let r = s.substring_char(0, end).to_owned();
    proof {
        if end > 0 {
            assert(s@.subrange(0, end as int)[end as int - 1] == s@[end as int - 1]);
        }
        assert(spec_trim_trailing(s@.subrange(0, end as int), c) == s@.subrange(0, end as int));
    }
    r
}

/// What turning a repository URL into its archive URL yields: for
/// `https://github.com/owner/repo` (trailing slashes ignored), the archive of
/// the main branch; other shapes are rejected.
pub open spec fn spec_zipball_url(github_url: Seq<char>) -> Result<Seq<char>, ErrorV> {
    let url = spec_trim_trailing(github_url, '/');
    if !spec_starts_with(url, "https://github.com/"@) {
        Err(crate::validator::verr("template"@, "Must be a GitHub URL"@))
    } else {
        let parts = spec_split(url, '/');
        if parts.len() < 5 {
            Err(crate::validator::verr("template"@, "Invalid GitHub URL format"@))
        } else {
            Ok(
                "https://github.com/"@ + parts[3] + "/"@ + parts[4]
                    + "/archive/refs/heads/main.zip"@,
            )
        }
    }
}

/// Turns a repository URL into the archive URL of its main branch.
pub fn github_to_zipball_url(github_url: &str) -> (r: Result<String, Error>)
    ensures
        url_result_view(&r) == spec_zipball_url(github_url@),
{
    let url = trim_trailing(github_url, '/');
    if !str_starts_with(url.as_str(), "https://github.com/") {
        return Err(
            Error::ValidationError {
                field: String::from_str("template"),
                message: String::from_str("Must be a GitHub URL"),
            },
        );
    }
    let parts = str_split(url.as_str(), '/');
    if parts.len() < 5 {
        return Err(
            Error::ValidationError {
                field: String::from_str("template"),
                message: String::from_str("Invalid GitHub URL format"),
            },
        );
    }
    proof {
        assert(parts@[3]@ == strings_view(parts@)[3]);
        assert(parts@[4]@ == strings_view(parts@)[4]);
    }
    Ok(
        String::from_str("https://github.com/").concat(parts[3].as_str()).concat("/").concat(
            parts[4].as_str(),
        ).concat("/archive/refs/heads/main.zip"),
    )
}

} // verus!
