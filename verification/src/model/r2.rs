use vstd::prelude::*;
use crate::validation::{Issue, ValidationErrors, length_issue};

verus! {

/// A request about an object of the storage bucket at `path`.
pub struct Payload {
    pub path: String,
    pub password: String,
    pub cf_turnstile_response: String,
}

impl Payload {
    pub open spec fn issues(&self) -> Seq<Issue> {
        length_issue("path"@, self.path@, Some(1), None, "path cannot be empty"@) + length_issue(
            "password"@,
            self.password@,
            Some(1),
            None,
            "password cannot be empty"@,
        ) + length_issue(
            "cf-turnstile-response"@,
            self.cf_turnstile_response@,
            Some(1),
            None,
            "not valid"@,
        )
    }

    pub fn validate(&self) -> (r: Result<(), ValidationErrors>)
        ensures
            r is Ok <==> self.issues().len() == 0,
            r matches Err(e) ==> e@ == self.issues(),
            r is Ok <==> (self.path@.len() >= 1 && self.password@.len() >= 1
                && self.cf_turnstile_response@.len() >= 1),
    {
        let mut errs = ValidationErrors::new();
        errs.check_length("path", self.path.as_str(), Some(1), None, "path cannot be empty");
        errs.check_length(
            "password",
            self.password.as_str(),
            Some(1),
            None,
            "password cannot be empty",
        );
        errs.check_length(
            "cf-turnstile-response",
            self.cf_turnstile_response.as_str(),
            Some(1),
            None,
            "not valid",
        );
        assert(errs@ =~= self.issues());
        errs.into_result()
    }
}

} // verus!
