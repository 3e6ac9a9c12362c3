use vstd::prelude::*;
use crate::text::{has_substring, occurs_at};

verus! {

/// What one run needs: the property reference number (UPRN), the webhook that receives the
/// result, and the operator contact that outbound requests carry.
#[derive(Clone, Debug, PartialEq, Eq)]
pub struct Config {
    pub uprn: String,
    pub webhook_url: String,
    pub operator_email: String,
}

/// A required setting that was not given; only the first missing one is reported.
#[derive(Clone, Copy, Debug, PartialEq, Eq, Structural)]
pub enum ConfigError {
    MissingUprn,
    MissingWebhookUrl,
    MissingOperatorEmail,
}

/// Exit status of a run that lacks a required setting.
pub const CONFIG_EXIT_CODE: i32 = 2;

pub open spec fn config_message(e: ConfigError) -> Seq<char> {
    match e {
        ConfigError::MissingUprn => "Error: No UPRN environment variable set"@,
        ConfigError::MissingWebhookUrl => "Error: No WEBHOOK_URL environment variable set"@,
        ConfigError::MissingOperatorEmail => "Error: No OPERATOR_EMAIL environment variable set"@,
    }
}

/// The environment variable that holds the missing setting.
pub open spec fn setting_name(e: ConfigError) -> Seq<char> {
    match e {
        ConfigError::MissingUprn => "UPRN"@,
        ConfigError::MissingWebhookUrl => "WEBHOOK_URL"@,
        ConfigError::MissingOperatorEmail => "OPERATOR_EMAIL"@,
    }
}

/// Every missing-setting diagnostic is non-empty and names the variable that is missing.
pub proof fn lemma_missing_setting_named(e: ConfigError)
    ensures
        config_message(e).len() > 0,
        has_substring(config_message(e), setting_name(e)),
{
    reveal_strlit("Error: No UPRN environment variable set");
    reveal_strlit("Error: No WEBHOOK_URL environment variable set");
    reveal_strlit("Error: No OPERATOR_EMAIL environment variable set");
    reveal_strlit("UPRN");
    reveal_strlit("WEBHOOK_URL");
    reveal_strlit("OPERATOR_EMAIL");
    let m = config_message(e);
    let n = setting_name(e);
    assert(m.subrange(10, 10 + n.len() as int) =~= n);
    assert(occurs_at(m, n, 10));
}

impl ConfigError {
    /// The diagnostic naming the missing setting.
    pub fn message(&self) -> (r: String)
        ensures
            r@ == config_message(*self),
            r@.len() > 0,
    {
        proof {
            reveal_strlit("Error: No UPRN environment variable set");
            reveal_strlit("Error: No WEBHOOK_URL environment variable set");
            reveal_strlit("Error: No OPERATOR_EMAIL environment variable set");
        }
        match self {
            ConfigError::MissingUprn => String::from_str("Error: No UPRN environment variable set"),
            ConfigError::MissingWebhookUrl => String::from_str(
                "Error: No WEBHOOK_URL environment variable set",
            ),
            ConfigError::MissingOperatorEmail => String::from_str(
                "Error: No OPERATOR_EMAIL environment variable set",
            ),
        }
    }

    /// The process exit status for this error.
    pub fn exit_code(&self) -> (r: i32)
        ensures
            r == CONFIG_EXIT_CODE,
    {
        CONFIG_EXIT_CODE
    }
}

/// Builds the configuration from the three settings, checked in the order UPRN, webhook URL,
/// operator contact; the first one missing is the error.
pub fn load_config(uprn: Option<String>, webhook_url: Option<String>, operator_email: Option<String>) -> (r: Result<Config, ConfigError>)
    ensures
        uprn is None ==> r == Err::<Config, ConfigError>(ConfigError::MissingUprn),
        uprn is Some && webhook_url is None ==> r == Err::<Config, ConfigError>(ConfigError::MissingWebhookUrl),
        uprn is Some && webhook_url is Some && operator_email is None ==> r == Err::<Config, ConfigError>(
            ConfigError::MissingOperatorEmail,
        ),
        r is Ok <==> uprn is Some && webhook_url is Some && operator_email is Some,
        r is Ok ==> r->Ok_0.uprn@ == uprn->0@ && r->Ok_0.webhook_url@ == webhook_url->0@
            && r->Ok_0.operator_email@ == operator_email->0@,
{
    let uprn = match uprn {
        Some(u) => u,
        None => return Err(ConfigError::MissingUprn),
    };
    let webhook_url = match webhook_url {
        Some(w) => w,
        None => return Err(ConfigError::MissingWebhookUrl),
    };
    let operator_email = match operator_email {
        Some(o) => o,
        None => return Err(ConfigError::MissingOperatorEmail),
    };
    Ok(Config { uprn, webhook_url, operator_email })
}

/// The council's bin-collection lookup; the property reference number is appended as is.
pub open spec fn base_url() -> Seq<char> {
    "https://www.salford.gov.uk/bins-and-recycling/bin-collection-days/your-bin-collections/?UPRN="@
}

/// The address of the page for one property: the base address followed by the UPRN,
/// without escaping.
pub fn page_url(uprn: &str) -> (r: String)
    ensures
        r@ == base_url() + uprn@,
{
    let mut url = String::from_str(
        "https://www.salford.gov.uk/bins-and-recycling/bin-collection-days/your-bin-collections/?UPRN=",
    );
    url.append(uprn);
    url
}

/// The user agent of outbound requests, naming this program's version and the operator.
pub open spec fn user_agent_text(version: Seq<char>, contact: Seq<char>) -> Seq<char> {
    "binday-bot/"@ + version + " (reqwest/0.11.10; +"@ + contact
}

/// Builds the user agent from the program version and the operator contact.
pub fn user_agent(version: &str, contact: &str) -> (r: String)
    ensures
        r@ == user_agent_text(version@, contact@),
{
    let mut ua = String::from_str("binday-bot/");
    ua.append(version);
    ua.append(" (reqwest/0.11.10; +");
    ua.append(contact);
    ua
}

} // verus!
