//! Where the worker sends events: the deployment environment and its
//! backend.
use vstd::prelude::*;
use vstd::utf8::is_ascii_chars;
use crate::text::{
    ascii_lowercase, ascii_lowercasing_is_idempotent, lowercase_text_is_unchanged, lowercased,
    opt_text, str_eq, text_or, to_lowercase,
};

verus! {

/// The deployments of the backend.
#[derive(Debug, Clone, Copy, PartialEq, Eq)]
pub enum Environment {
    Staging,
    Production,
}

/// The worker's configuration.
#[derive(Debug, Clone, Copy)]
pub struct AppConfig {
    pub environment: Environment,
}

/// The environment that a (lower-cased) `APP_ENV` names: production for
/// `production` or `prod`, staging for anything else.
pub open spec fn environment_named(name: Seq<char>) -> Environment {
    if name == "production"@ || name == "prod"@ {
        Environment::Production
    } else {
        Environment::Staging
    }
}

/// The backend of an environment: the configured URL where there is one,
/// else the public default.
pub open spec fn backend_url_of(
    environment: Environment,
    staging_url: Option<Seq<char>>,
    prod_url: Option<Seq<char>>,
) -> Seq<char> {
    match environment {
        Environment::Staging => text_or(staging_url, "https://staging.ourpocket.com"@),
        Environment::Production => text_or(prod_url, "https://api.ourpocket.com"@),
    }
}

/// Each deployment has its own backend: the production URL is the
/// configured production URL, else `https://api.ourpocket.com`, whatever the
/// staging setting; the staging URL is the configured staging URL, else
/// `https://staging.ourpocket.com`, whatever the production setting. Only
/// `production` and `prod` name production.
pub proof fn each_environment_has_its_own_backend(
    staging_url: Option<Seq<char>>,
    other_staging_url: Option<Seq<char>>,
    prod_url: Option<Seq<char>>,
    other_prod_url: Option<Seq<char>>,
    name: Seq<char>,
)
    ensures
        backend_url_of(Environment::Production, staging_url, prod_url) == backend_url_of(
            Environment::Production,
            other_staging_url,
            prod_url,
        ),
        backend_url_of(Environment::Staging, staging_url, prod_url) == backend_url_of(
            Environment::Staging,
            staging_url,
            other_prod_url,
        ),
        prod_url matches Some(u) ==> backend_url_of(Environment::Production, staging_url, prod_url)
            == u,
        backend_url_of(Environment::Production, staging_url, None) == "https://api.ourpocket.com"@,
        staging_url matches Some(u) ==> backend_url_of(Environment::Staging, staging_url, prod_url)
            == u,
        backend_url_of(Environment::Staging, None, prod_url) == "https://staging.ourpocket.com"@,
        environment_named(name) == Environment::Production <==> (name == "production"@ || name
            == "prod"@),
{
}

/// `APP_ENV` unset means staging; `production` and `prod` select production
/// in any mix of ASCII case.
pub proof fn app_env_names(value: Seq<char>)
    requires
        is_ascii_chars(value),
    ensures
        environment_named(lowercased("staging"@)) == Environment::Staging,
        environment_named(lowercased("production"@)) == Environment::Production,
        environment_named(lowercased("prod"@)) == Environment::Production,
        environment_named(lowercased(ascii_lowercase(value))) == environment_named(
            lowercased(value),
        ),
{
    reveal_strlit("staging");
    reveal_strlit("production");
    reveal_strlit("prod");
    assert("staging"@.len() == 7 && "production"@.len() == 10 && "prod"@.len() == 4);
    lowercase_text_is_unchanged("staging"@);
    lowercase_text_is_unchanged("production"@);
    lowercase_text_is_unchanged("prod"@);
    ascii_lowercasing_is_idempotent(value);
}

impl AppConfig {
    /// The configuration for the value of `APP_ENV` (`None` where it is not
    /// set, which means staging); the value is compared without regard to case.
    pub fn from_app_env(app_env: Option<&str>) -> (r: AppConfig)
        ensures
            r.environment == environment_named(lowercased(text_or(opt_text(app_env), "staging"@))),
    {
        let value = match app_env {
            Some(v) => to_lowercase(v),
            None => to_lowercase("staging"),
        };
        let environment = if str_eq(value.as_str(), "production") || str_eq(value.as_str(), "prod") {
            Environment::Production
        } else {
            Environment::Staging
        };
        AppConfig { environment }
    }

    /// The backend's base URL, given the values of `BACKEND_STAGING_URL` and
    /// `BACKEND_PROD_URL` (`None` where they are not set).
    pub fn backend_url(&self, staging_url: Option<&str>, prod_url: Option<&str>) -> (r: String)
        ensures
            r@ == backend_url_of(self.environment, opt_text(staging_url), opt_text(prod_url)),
    {
        match self.environment {
            Environment::Staging => match staging_url {
                Some(u) => u.to_owned(),
                None => "https://staging.ourpocket.com".to_owned(),
            },
            Environment::Production => match prod_url {
                Some(u) => u.to_owned(),
                None => "https://api.ourpocket.com".to_owned(),
            },
        }
    }
}

/// The backend endpoint that takes transaction events.
pub fn transaction_endpoint(backend_url: &str) -> (r: String)
    ensures
        r@ == backend_url@ + "/transactions/webhook"@,
{
    let mut url = backend_url.to_owned();
    url.append("/transactions/webhook");
    url
}

} // verus!
