//! Discovered templates: the metadata record a repository search yields, tag
//! filtering, and resolution of a user-supplied template reference.

use vstd::prelude::*;
use vstd::string::StringExecFns;

use crate::error::Error;
use crate::strutil::{str_eq, strings_view, str_split};
use crate::trusted::{lower_of, str_to_lowercase};

verus! {

/// Information about a discoverable template repository.
#[derive(Debug, Clone, PartialEq, Eq)]
pub struct TemplateInfo {
    /// Template name.
    pub name: String,
    /// One-line description.
    pub description: String,
    /// Full repository URL.
    pub url: String,
    /// Repository owner.
    pub owner: String,
    /// Repository name.
    pub repo: String,
    /// Number of stars.
    pub stars: u32,
    /// Primary language.
    pub language: String,
    /// Repository topics.
    pub topics: Vec<String>,
}

/// Whether a template carries at least one of the filter tags; an empty
/// filter matches everything.
pub open spec fn spec_matches_tags(topics: Seq<String>, tags: Seq<String>) -> bool {
    tags.len() == 0 || exists|i: int|
        0 <= i < tags.len() && crate::schema::choices_contain(topics, tags[i]@)
}

impl TemplateInfo {
    /// The compact `owner/repo` reference of this template.
    pub fn shorthand(&self) -> (r: String)
        ensures
            r@ == self.owner@ + "/"@ + self.repo@,
    {
        self.owner.clone().concat("/").concat(self.repo.as_str())
    }

    /// Whether this template carries at least one of the filter tags; an
    /// empty filter matches everything.
    #[verifier::loop_isolation(false)]
    pub fn matches_tags(&self, tags: &[String]) -> (r: bool)
        ensures
            r == spec_matches_tags(self.topics@, tags@),
    {
        if tags.len() == 0 {
            return true;
        }
        let nt = tags.len();
        let mut i: usize = 0;
        while i < nt
            invariant
                i <= nt,
                forall|j: int|
                    0 <= j < i ==> !crate::schema::choices_contain(self.topics@, tags@[j]@),
            decreases nt - i,
        {
            let nc = self.topics.len();
            let mut k: usize = 0;
            while k < nc
                invariant
                    k <= nc,
                    i < nt,
                    forall|j: int| 0 <= j < k ==> self.topics@[j]@ != tags@[i as int]@,
                decreases nc - k,
            {
                if str_eq(self.topics[k].as_str(), tags[i].as_str()) {
                    proof {
                        assert(crate::schema::choices_contain(self.topics@, tags@[i as int]@));
                    }
                    return true;
                }
                k = k + 1;
            }
            i = i + 1;
        }
        false
    }

    /// Builds the record shown for one repository of a search result: the
    /// description stands in for a missing name, and a missing language reads
    /// "Unknown".
    pub fn from_repo_record(
        repo_name: String,
        description: Option<String>,
        html_url: String,
        owner_login: String,
        stars: u32,
        language: Option<String>,
        topics: Vec<String>,
    ) -> (r: TemplateInfo)
        ensures
            r.description@ == (match description {
                Some(d) => d@,
                None => Seq::<char>::empty(),
            }),
            r.name@ == (if r.description@.len() == 0 {
                repo_name@
            } else {
                r.description@
            }),
            r.url == html_url,
            r.owner == owner_login,
            r.repo == repo_name,
            r.stars == stars,
            r.language@ == (match language {
                Some(l) => l@,
                None => "Unknown"@,
            }),
            r.topics == topics,
    {
        let description = match description {
            Some(d) => d,
            None => String::new(),
        };
        let name = if description.as_str().is_empty() {
            repo_name.clone()
        } else {
            description.clone()
        };
        TemplateInfo {
            name,
            description,
            url: html_url,
            owner: owner_login,
            repo: repo_name,
            stars,
            language: match language {
                Some(l) => l,
                None => String::from_str("Unknown"),
            },
            topics,
        }
    }
}

/// A discoverer of templates; the scaffolder's commands work against this
/// interface so that tests can supply a scripted source.
pub trait Discoverer {
    /// Finds every discoverable template.
    fn discover(&self) -> Result<Vec<TemplateInfo>, Error>;

    /// Finds one template by its `owner/repo` shorthand.
    fn get_template(&self, shorthand: &str) -> Result<Option<TemplateInfo>, Error>;
}

/// Whether a template answers to a reference: its repository name matches
/// exactly, or its name matches without regard to case.
pub open spec fn spec_answers_to(t: TemplateInfo, reference: Seq<char>) -> bool {
    t.repo@ == reference || lower_of(t.name@) == lower_of(reference)
}

/// Picks the first template that answers to a reference: the repository name
/// exactly, or the template name without regard to case. Returns its position
/// in the list.
#[verifier::loop_isolation(false)]
pub fn find_template(templates: &Vec<TemplateInfo>, reference: &str) -> (r: Option<usize>)
    ensures
        r matches Some(i) ==> 0 <= i < templates@.len() && spec_answers_to(
            templates@[i as int],
            reference@,
        ) && (forall|j: int| 0 <= j < i ==> !spec_answers_to(templates@[j], reference@)),
        r is None ==> forall|j: int|
            0 <= j < templates@.len() ==> !spec_answers_to(templates@[j], reference@),
{
    let ref_lower = str_to_lowercase(reference);
    let n = templates.len();
    let mut i: usize = 0;
    while i < n
        invariant
            i <= n,
            n == templates@.len(),
            ref_lower@ == lower_of(reference@),
            forall|j: int| 0 <= j < i ==> !spec_answers_to(templates@[j], reference@),
        decreases n - i,
    {
        let name_lower = str_to_lowercase(templates[i].name.as_str());
        if str_eq(templates[i].repo.as_str(), reference) || name_lower == ref_lower {
            return Some(i);
        }
        i = i + 1;
    }
    None
}

/// What parsing a template reference yields: an explicit repository from a
/// full URL (which must have owner and name components) or an `owner/repo`
/// shorthand (which must have exactly two); anything without a slash is a
/// bare name.
pub open spec fn spec_parse_reference(s: Seq<char>) -> Result<(Seq<char>, Seq<char>), ErrorSpec> {
    if crate::strutil::spec_starts_with(s, "https://"@) {
        let parts = crate::strutil::spec_split(s, '/');
        if parts.len() < 5 {
            Err(ErrorSpec::InvalidUrl)
        } else {
            Ok((parts[3], parts[4]))
        }
    } else {
        let parts = crate::strutil::spec_split(s, '/');
        if parts.len() != 2 {
            Err(ErrorSpec::InvalidShorthand)
        } else {
            Ok((parts[0], parts[1]))
        }
    }
}

/// Which of the two reference shapes was violated.
pub ghost enum ErrorSpec {
    /// A URL without owner and repository components.
    InvalidUrl,
    /// A shorthand that is not exactly `owner/repo`.
    InvalidShorthand,
}

/// Splits a reference that holds a slash into its owner and repository, as a
/// full URL or an `owner/repo` shorthand; rejects malformed shapes with a
/// validation error naming the `template` field.
pub fn parse_repo_reference(reference: &str) -> (r: Result<(String, String), Error>)
    ensures
        ({
            let sr = spec_parse_reference(reference@);
            match r {
                Ok((owner, repo)) => sr matches Ok(p) && p.0 == owner@ && p.1 == repo@,
                Err(e) => {
                    &&& sr is Err
                    &&& (sr == Err::<(Seq<char>, Seq<char>), ErrorSpec>(ErrorSpec::InvalidUrl)
                        ==> e@ == crate::validator::verr(
                        "template"@,
                        "Invalid GitHub URL"@,
                    ))
                    &&& (sr == Err::<(Seq<char>, Seq<char>), ErrorSpec>(ErrorSpec::InvalidShorthand)
                        ==> e@ == crate::validator::verr(
                        "template"@,
                        "Template reference must be in format 'owner/repo'"@,
                    ))
                },
            }
        }),
{
    let mut parts = str_split(reference, '/');
    if crate::strutil::str_starts_with(reference, "https://") {
        if parts.len() < 5 {
            return Err(
                Error::ValidationError {
                    field: String::from_str("template"),
                    message: String::from_str("Invalid GitHub URL"),
                },
            );
        }
        proof {
            assert(parts@[3]@ == strings_view(parts@)[3]);
            assert(parts@[4]@ == strings_view(parts@)[4]);
        }
        let repo = parts.remove(4);
        let owner = parts.remove(3);
        Ok((owner, repo))
    } else {
        if parts.len() != 2 {
            return Err(
                Error::ValidationError {
                    field: String::from_str("template"),
                    message: String::from_str(
                        "Template reference must be in format 'owner/repo'",
                    ),
                },
            );
        }
        proof {
            assert(parts@[0]@ == strings_view(parts@)[0]);
            assert(parts@[1]@ == strings_view(parts@)[1]);
        }
        let repo = parts.remove(1);
        let owner = parts.remove(0);
        Ok((owner, repo))
    }
}

} // verus!
