//! The deployment environment, which names the settings file to load.

use vstd::prelude::*;
use vstd::string::StringExecFns;

verus! {

/// The environments the service can be started in.
#[derive(Clone, Copy, Debug, PartialEq, Eq, Structural)]
pub enum ConfigurationEnvironment {
    Development,
    Production,
}

/// The lower-case form of a text, as `str::to_lowercase` computes it.
pub uninterp spec fn lowercased(text: Seq<char>) -> Seq<char>;

/// Calls `str::to_lowercase`. Trusted: the result is the lower-case form of
/// `text`, which depends on `text` alone.
#[verifier::external_body]
fn to_lowercase(text: &str) -> (lower: String)
    ensures
        lower@ == lowercased(text@),
{
    text.to_lowercase()
}

/// The message that rejects `text` as the name of an environment.
pub open spec fn invalid_environment_message(text: Seq<char>) -> Seq<char> {
    "'"@ + text
        + "' is not a valid configuration environment. Use either development or production"@
}

/// What parsing decides once the lower-case form of the text is known.
pub open spec fn environment_named(text: Seq<char>, lower: Seq<char>) -> Result<
    ConfigurationEnvironment,
    Seq<char>,
> {
    if lower == "development"@ {
        Ok(ConfigurationEnvironment::Development)
    } else if lower == "production"@ {
        Ok(ConfigurationEnvironment::Production)
    } else {
        Err(invalid_environment_message(text))
    }
}

/// The view of a parse result: the error message by its characters.
pub open spec fn parsed_view(r: Result<ConfigurationEnvironment, String>) -> Result<
    ConfigurationEnvironment,
    Seq<char>,
> {
    match r {
        Ok(e) => Ok(e),
        Err(m) => Err(m@),
    }
}

impl ConfigurationEnvironment {
    /// The name of the environment, in lower case.
    pub open spec fn name(self) -> Seq<char> {
        match self {
            ConfigurationEnvironment::Development => "development"@,
            ConfigurationEnvironment::Production => "production"@,
        }
    }

    /// The environment's name: the stem of its settings file.
    pub fn as_str(&self) -> (name: &'static str)
        ensures
            name@ == self.name(),
    {
        match self {
            ConfigurationEnvironment::Development => "development",
            ConfigurationEnvironment::Production => "production",
        }
    }

    /// Picks the environment from `text` and its lower-case form `lower`:
    /// `development` or `production`, anything else is rejected with a
    /// message that quotes `text`.
    pub fn from_lowercase(text: &str, lower: &str) -> (r: Result<ConfigurationEnvironment, String>)
        ensures
            parsed_view(r) == environment_named(text@, lower@),
    {
        let lower = lower.to_owned();
        if lower == "development".to_owned() {
            Ok(ConfigurationEnvironment::Development)
        } else if lower == "production".to_owned() {
            Ok(ConfigurationEnvironment::Production)
        } else {
            let message = String::from_str("'").concat(text).concat(
                "' is not a valid configuration environment. Use either development or production",
            );
            Err(message)
        }
    }

    /// Reads an environment's name, ignoring case.
    pub fn from_str(s: &str) -> (r: Result<ConfigurationEnvironment, String>)
        ensures
            parsed_view(r) == environment_named(s@, lowercased(s@)),
    {
        let lower = to_lowercase(s);
        ConfigurationEnvironment::from_lowercase(s, lower.as_str())
    }
}

impl std::str::FromStr for ConfigurationEnvironment {
    type Err = String;

    /// Reads an environment's name, ignoring case, as the method of the
    /// same name on the type does.
    fn from_str(s: &str) -> (r: Result<Self, Self::Err>)
        ensures
            parsed_view(r) == environment_named(s@, lowercased(s@)),
    {
        ConfigurationEnvironment::from_str(s)
    }
}

} // verus!
