//! The settings the application needs: the API token and the project.

use vstd::prelude::*;
use crate::text::{owned, trim, trim_of};

verus! {

/// The application's settings.
pub struct Config {
    /// CircleCI API token.
    pub circle_token: String,
    /// Project slug, such as "gh/owner/repo".
    pub project_slug: String,
}

impl Clone for Config {
    fn clone(&self) -> (r: Self)
        ensures
            r == *self,
    {
        Config { circle_token: self.circle_token.clone(), project_slug: self.project_slug.clone() }
    }
}

/// Why settings could not be had from the given values, if they cannot: a
/// missing token or project, or one that is only whitespace, checked in that
/// order.
pub open spec fn config_problem(token: Option<Seq<char>>, slug: Option<Seq<char>>) -> Option<Seq<char>> {
    match (token, slug) {
        (None, _) => Some("CIRCLECI_TOKEN environment variable not set. Please set it in .env file or environment."@),
        (Some(_), None) => Some("PROJECT_SLUG environment variable not set. Please set it in .env file or environment."@),
        (Some(t), Some(s)) => if trim_of(t).len() == 0 {
            Some("CIRCLECI_TOKEN cannot be empty"@)
        } else if trim_of(s).len() == 0 {
            Some("PROJECT_SLUG cannot be empty"@)
        } else {
            None
        },
    }
}

/// The view of an optional string.
pub open spec fn opt_view(s: Option<String>) -> Option<Seq<char>> {
    match s {
        Some(v) => Some(v@),
        None => None,
    }
}

impl Config {
    /// Settings from the values of CIRCLECI_TOKEN and PROJECT_SLUG (`None`
    /// when unset); both must be set and not blank.
    pub fn from_values(token: Option<String>, slug: Option<String>) -> (r: Result<Config, String>)
        ensures
            match r {
                Ok(c) => config_problem(opt_view(token), opt_view(slug)) is None && Some(c.circle_token) == token
                    && Some(c.project_slug) == slug,
                Err(e) => config_problem(opt_view(token), opt_view(slug)) == Some(e@),
            },
    {
        let circle_token = match token {
            Some(t) => t,
            None => return Err(owned("CIRCLECI_TOKEN environment variable not set. Please set it in .env file or environment.")),
        };
        let project_slug = match slug {
            Some(s) => s,
            None => return Err(owned("PROJECT_SLUG environment variable not set. Please set it in .env file or environment.")),
        };
        if trim(circle_token.as_str()).unicode_len() == 0 {
            return Err(owned("CIRCLECI_TOKEN cannot be empty"));
        }
        if trim(project_slug.as_str()).unicode_len() == 0 {
            return Err(owned("PROJECT_SLUG cannot be empty"));
        }
        Ok(Config { circle_token, project_slug })
    }
}

} // verus!
