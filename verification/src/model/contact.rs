use vstd::prelude::*;
use crate::validation::{Issue, ValidationErrors, is_email, length_issue, value_issue_if};

verus! {

/// A message sent through the contact form.
pub struct ContactUs {
    pub email: String,
    pub name: String,
    pub message: String,
}

impl ContactUs {
    pub open spec fn issues(&self) -> Seq<Issue> {
        value_issue_if(
            !is_email(self.email@),
            "email"@,
            "email"@,
            Some("provide a valid email"@),
            self.email@,
        )
            + length_issue(
            "name"@,
            self.name@,
            Some(5),
            Some(100),
            "name must be between 5 and 100 characters"@,
        ) + length_issue(
            "message"@,
            self.message@,
            Some(10),
            Some(1000),
            "message must be between 10 and 1000 characters"@,
        )
    }

    pub fn validate(&self) -> (r: Result<(), ValidationErrors>)
        ensures
            r is Ok <==> self.issues().len() == 0,
            r matches Err(e) ==> e@ == self.issues(),
            r is Ok <==> (is_email(self.email@) && 5 <= self.name@.len() <= 100 && 10
                <= self.message@.len() <= 1000),
    {
        let mut errs = ValidationErrors::new();
        errs.check_email("email", self.email.as_str(), Some("provide a valid email"));
        errs.check_length(
            "name",
            self.name.as_str(),
            Some(5),
            Some(100),
            "name must be between 5 and 100 characters",
        );
        errs.check_length(
            "message",
            self.message.as_str(),
            Some(10),
            Some(1000),
            "message must be between 10 and 1000 characters",
        );
        assert(errs@ =~= self.issues());
        errs.into_result()
    }
}

/// A contact message passes exactly when the address is an e-mail address, the
/// name has 5 to 100 characters and the message 10 to 1000.
pub proof fn lemma_contact_rules(c: ContactUs)
    ensures
        c.issues().len() == 0 <==> (is_email(c.email@) && 5 <= c.name@.len() <= 100 && 10
            <= c.message@.len() <= 1000),
{
}

} // verus!
