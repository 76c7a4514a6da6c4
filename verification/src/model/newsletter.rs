use vstd::prelude::*;
use crate::validation::{Issue, ValidationErrors, is_email, value_issue_if};

verus! {

/// A sign-up to the newsletter.
pub struct SignUp {
    pub email: String,
}

impl SignUp {
    pub open spec fn issues(&self) -> Seq<Issue> {
        value_issue_if(!is_email(self.email@), "email"@, "email"@, Some("not valid"@), self.email@)
    }

    pub fn validate(&self) -> (r: Result<(), ValidationErrors>)
        ensures
            r is Ok <==> self.issues().len() == 0,
            r matches Err(e) ==> e@ == self.issues(),
            r is Ok <==> is_email(self.email@),
    {
        let mut errs = ValidationErrors::new();
        errs.check_email("email", self.email.as_str(), Some("not valid"));
        assert(errs@ =~= self.issues());
        errs.into_result()
    }
}

} // verus!
