use vstd::prelude::*;
use crate::validation::{
    Issue, ValidationError, ValidationErrors, custom_issue, length_issue, range_issue,
    verdict_view,
};

verus! {

/// The modes the application runs in.
pub open spec fn is_env_mode(mode: Seq<char>) -> bool {
    mode == "dev"@ || mode == "prd"@ || mode == "stg"@
}

/// `envmode::verify`: the crate accepts `dev`, `prd` and `stg`, and rejects
/// anything else with code `env_mode` and message
/// `Please provide a valid environment mode`.
#[verifier::external_body]
pub(crate) fn verify_env_mode(mode: &str) -> (r: Result<(), ValidationError>)
    ensures
        r is Ok <==> is_env_mode(mode@),
        r matches Err(e) ==> e@ == ("env_mode"@, Some("Please provide a valid environment mode"@)),
{
    match envmode::verify(mode) {
        Ok(()) => Ok(()),
        Err(e) => Err(ValidationError {
            code: e.code.to_string(),
            message: e.message.map(|m| m.to_string()),
        }),
    }
}

/// The settings the application reads from its environment.
pub struct Env {
    pub environment: String,
    pub db_url: String,
    pub db_schema: String,
    pub redis_url: String,
    pub redis_schema: String,
    pub resend_api_key: String,
    pub domain: String,
    pub resend_audience_id: String,
    pub admin_password: String,
    pub turnstile_site_key: String,
    pub turnstile_site_secret: String,
    pub cloudflare_token_value: String,
    pub cloudflare_access_key_id: String,
    pub cloudflare_access_key_secret: String,
    pub cloudflare_endpoint: String,
    pub cloudflare_bucket_name: String,
    pub cloudinary_cloud_name: String,
    pub cloudinary_api_key: String,
    pub cloudinary_api_secret: String,
    pub gemini_api_key: String,
    pub gcloud_geocoding_api_key: String,
    pub port: u16,
}

pub open spec fn required(field: Seq<char>, value: Seq<char>) -> Seq<Issue> {
    length_issue(field, value, Some(1), None, "must not be empty"@)
}

fn check_required(errs: &mut ValidationErrors, field: &str, value: &str)
    ensures
        final(errs)@ == old(errs)@ + required(field@, value@),
{
    errs.check_length(field, value, Some(1), None, "must not be empty");
}

impl Env {
    /// Settings 1 to 5 that must not be empty.
    pub open spec fn required_issues_0(&self) -> Seq<Issue> {
        required("db_url"@, self.db_url@) + required("db_schema"@, self.db_schema@) + required("redis_url"@, self.redis_url@) + required("redis_schema"@, self.redis_schema@) + required("resend_api_key"@, self.resend_api_key@)
    }

    fn check_required_0(&self, errs: &mut ValidationErrors)
        ensures
            final(errs)@ == old(errs)@ + self.required_issues_0(),
    {
        check_required(errs, "db_url", self.db_url.as_str());
        check_required(errs, "db_schema", self.db_schema.as_str());
        check_required(errs, "redis_url", self.redis_url.as_str());
        check_required(errs, "redis_schema", self.redis_schema.as_str());
        check_required(errs, "resend_api_key", self.resend_api_key.as_str());
        assert(final(errs)@ =~= old(errs)@ + self.required_issues_0());
    }

    /// Settings 6 to 10 that must not be empty.
    pub open spec fn required_issues_1(&self) -> Seq<Issue> {
        required("domain"@, self.domain@) + required("resend_audience_id"@, self.resend_audience_id@) + required("admin_password"@, self.admin_password@) + required("turnstile_site_key"@, self.turnstile_site_key@) + required("turnstile_site_secret"@, self.turnstile_site_secret@)
    }

    fn check_required_1(&self, errs: &mut ValidationErrors)
        ensures
            final(errs)@ == old(errs)@ + self.required_issues_1(),
    {
        check_required(errs, "domain", self.domain.as_str());
        check_required(errs, "resend_audience_id", self.resend_audience_id.as_str());
        check_required(errs, "admin_password", self.admin_password.as_str());
        check_required(errs, "turnstile_site_key", self.turnstile_site_key.as_str());
        check_required(errs, "turnstile_site_secret", self.turnstile_site_secret.as_str());
        assert(final(errs)@ =~= old(errs)@ + self.required_issues_1());
    }

    /// Settings 11 to 15 that must not be empty.
    pub open spec fn required_issues_2(&self) -> Seq<Issue> {
        required("cloudflare_token_value"@, self.cloudflare_token_value@) + required("cloudflare_access_key_id"@, self.cloudflare_access_key_id@) + required("cloudflare_access_key_secret"@, self.cloudflare_access_key_secret@) + required("cloudflare_endpoint"@, self.cloudflare_endpoint@) + required("cloudflare_bucket_name"@, self.cloudflare_bucket_name@)
    }

    fn check_required_2(&self, errs: &mut ValidationErrors)
        ensures
            final(errs)@ == old(errs)@ + self.required_issues_2(),
    {
        check_required(errs, "cloudflare_token_value", self.cloudflare_token_value.as_str());
        check_required(errs, "cloudflare_access_key_id", self.cloudflare_access_key_id.as_str());
        check_required(errs, "cloudflare_access_key_secret", self.cloudflare_access_key_secret.as_str());
        check_required(errs, "cloudflare_endpoint", self.cloudflare_endpoint.as_str());
        check_required(errs, "cloudflare_bucket_name", self.cloudflare_bucket_name.as_str());
        assert(final(errs)@ =~= old(errs)@ + self.required_issues_2());
    }

    /// Settings 16 to 20 that must not be empty.
    pub open spec fn required_issues_3(&self) -> Seq<Issue> {
        required("cloudinary_cloud_name"@, self.cloudinary_cloud_name@) + required("cloudinary_api_key"@, self.cloudinary_api_key@) + required("cloudinary_api_secret"@, self.cloudinary_api_secret@) + required("gemini_api_key"@, self.gemini_api_key@) + required("gcloud_geocoding_api_key"@, self.gcloud_geocoding_api_key@)
    }

    fn check_required_3(&self, errs: &mut ValidationErrors)
        ensures
            final(errs)@ == old(errs)@ + self.required_issues_3(),
    {
        check_required(errs, "cloudinary_cloud_name", self.cloudinary_cloud_name.as_str());
        check_required(errs, "cloudinary_api_key", self.cloudinary_api_key.as_str());
        check_required(errs, "cloudinary_api_secret", self.cloudinary_api_secret.as_str());
        check_required(errs, "gemini_api_key", self.gemini_api_key.as_str());
        check_required(errs, "gcloud_geocoding_api_key", self.gcloud_geocoding_api_key.as_str());
        assert(final(errs)@ =~= old(errs)@ + self.required_issues_3());
    }

    /// Every setting must be present, the mode must be a known one, and the port
    /// lies between 8080 and 8090.
    pub open spec fn issues(&self) -> Seq<Issue> {
        custom_issue(
            "environment"@,
            if is_env_mode(self.environment@) {
                Ok(())
            } else {
                Err(("env_mode"@, Some("Please provide a valid environment mode"@)))
            },
            self.environment@,
        ) + self.required_issues_0() + self.required_issues_1() + self.required_issues_2()
            + self.required_issues_3() + range_issue(
            "port"@,
            self.port as nat,
            Some(8080),
            Some(8090),
            Some("must be between 8080 and 8090"@),
        )
    }

    pub fn validate(&self) -> (r: Result<(), ValidationErrors>)
        ensures
            r is Ok <==> self.issues().len() == 0,
            r matches Err(e) ==> e@ == self.issues(),
            r is Ok <==> ((self.environment@ == "dev"@ || self.environment@ == "prd"@
                || self.environment@ == "stg"@)
                && self.db_url@.len() >= 1
                && self.db_schema@.len() >= 1
                && self.redis_url@.len() >= 1
                && self.redis_schema@.len() >= 1
                && self.resend_api_key@.len() >= 1
                && self.domain@.len() >= 1
                && self.resend_audience_id@.len() >= 1
                && self.admin_password@.len() >= 1
                && self.turnstile_site_key@.len() >= 1
                && self.turnstile_site_secret@.len() >= 1
                && self.cloudflare_token_value@.len() >= 1
                && self.cloudflare_access_key_id@.len() >= 1
                && self.cloudflare_access_key_secret@.len() >= 1
                && self.cloudflare_endpoint@.len() >= 1
                && self.cloudflare_bucket_name@.len() >= 1
                && self.cloudinary_cloud_name@.len() >= 1
                && self.cloudinary_api_key@.len() >= 1
                && self.cloudinary_api_secret@.len() >= 1
                && self.gemini_api_key@.len() >= 1
                && self.gcloud_geocoding_api_key@.len() >= 1
                && 8080 <= self.port <= 8090),
    {
        let mut errs = ValidationErrors::new();
        let mode = verify_env_mode(self.environment.as_str());
        errs.check_custom("environment", &mode, self.environment.as_str());
        let ghost s0 = errs@;
        self.check_required_0(&mut errs);
        self.check_required_1(&mut errs);
        self.check_required_2(&mut errs);
        self.check_required_3(&mut errs);
        let ghost s1 = errs@;
        errs.check_range(
            "port",
            self.port as u64,
            Some(8080),
            Some(8090),
            Some("must be between 8080 and 8090"),
        );
        assert(verdict_view(mode) == (if is_env_mode(self.environment@) {
            Ok::<(), (Seq<char>, Option<Seq<char>>)>(())
        } else {
            Err(("env_mode"@, Some("Please provide a valid environment mode"@)))
        }));
        assert(s1 =~= s0 + self.required_issues_0() + self.required_issues_1()
            + self.required_issues_2() + self.required_issues_3());
        assert(errs@ =~= self.issues());
        errs.into_result()
    }
}

} // verus!
