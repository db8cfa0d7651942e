use crate::domain::text::same_text;
use vstd::prelude::*;

verus! {

/// The log filter of an environment: verbose for "local", "info" for
/// "production" and for every other name.
pub open spec fn log_level_for(environment: Seq<char>) -> Seq<char> {
    if environment == "production"@ {
        "info"@
    } else if environment == "local"@ {
        "debug,sqlx=debug"@
    } else {
        "info"@
    }
}

pub fn get_log_level_for_env(environment: &str) -> (level: String)
    ensures
        level@ == log_level_for(environment@),
{
    if same_text(environment, "production") {
        "info".to_owned()
    } else if same_text(environment, "local") {
        "debug,sqlx=debug".to_owned()
    } else {
        "info".to_owned()
    }
}

/// Whether logs are written as JSON: only where the environment variable
/// that names the environment is set to "production".
pub fn json_logs(app_environment: Option<String>) -> (json: bool)
    ensures
        json == (app_environment matches Some(name) && name@ == "production"@),
{
    match app_environment {
        Some(name) => same_text(name.as_str(), "production"),
        None => false,
    }
}

} // verus!
