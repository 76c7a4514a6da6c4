use vstd::prelude::*;
use crate::validation::{Issue, ValidationErrors, is_url, length_issue, value_issue_if};

verus! {

/// A request to copy an image at `url` into the CDN under `path`.
pub struct Payload {
    pub path: String,
    pub password: String,
    pub url: String,
}

impl Payload {
    pub open spec fn issues(&self) -> Seq<Issue> {
        length_issue("path"@, self.path@, Some(1), None, "path cannot be empty"@) + length_issue(
            "password"@,
            self.password@,
            Some(1),
            None,
            "password cannot be empty"@,
        ) + value_issue_if(!is_url(self.url@), "url"@, "url"@, Some("url is not valid"@), self.url@)
    }

    pub fn validate(&self) -> (r: Result<(), ValidationErrors>)
        ensures
            r is Ok <==> self.issues().len() == 0,
            r matches Err(e) ==> e@ == self.issues(),
            r is Ok <==> (self.path@.len() >= 1 && self.password@.len() >= 1 && is_url(self.url@)),
    {
        let mut errs = ValidationErrors::new();
        errs.check_length("path", self.path.as_str(), Some(1), None, "path cannot be empty");
        errs.check_length(
            "password",
            self.password.as_str(),
            Some(1),
            None,
            "password cannot be empty",
        );
        errs.check_url("url", self.url.as_str(), Some("url is not valid"));
        assert(errs@ =~= self.issues());
        errs.into_result()
    }
}

} // verus!
