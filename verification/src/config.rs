//! The client configuration and the settings it is made from.

use vstd::prelude::*;

verus! {

/// A setting that the process configuration may carry.
#[derive(Debug, Clone, Copy, PartialEq, Eq, Structural)]
pub enum Variable {
    AccessKeyId,
    SecretAccessKey,
    Region,
    Profile,
    EndpointUrl,
}

impl Variable {
    /// The name under which the setting is looked up.
    pub open spec fn spec_name(self) -> Seq<char> {
        match self {
            Variable::AccessKeyId => "AWS_ACCESS_KEY_ID"@,
            Variable::SecretAccessKey => "AWS_SECRET_ACCESS_KEY"@,
            Variable::Region => "AWS_REGION"@,
            Variable::Profile => "AWS_PROFILE"@,
            Variable::EndpointUrl => "AWS_ENDPOINT_URL"@,
        }
    }

    /// The name under which the setting is looked up.
    pub fn name(self) -> (text: &'static str)
        ensures
            text@ == self.spec_name(),
    {
        match self {
            Variable::AccessKeyId => "AWS_ACCESS_KEY_ID",
            Variable::SecretAccessKey => "AWS_SECRET_ACCESS_KEY",
            Variable::Region => "AWS_REGION",
            Variable::Profile => "AWS_PROFILE",
            Variable::EndpointUrl => "AWS_ENDPOINT_URL",
        }
    }
}

/// The region of a client whose configuration names none.
pub const DEFAULT_REGION: &'static str = "us-west-2";

/// The profile name of a client whose configuration names none.
pub const DEFAULT_PROFILE: &'static str = "default";

/// What the process configuration held for one setting.
#[derive(Debug, PartialEq, Eq)]
pub enum Lookup {
    /// The setting is not there.
    Unset,
    /// The setting is there, but its value is not text.
    Malformed,
    /// The setting is there, with this value.
    Text(String),
}

impl Lookup {
    /// The value, where one could be read.
    pub open spec fn text(self) -> Option<Seq<char>> {
        match self {
            Lookup::Text(value) => Some(value@),
            _ => None,
        }
    }
}

/// The five settings as they were found, before any of them is judged.
pub struct Environment {
    pub access_key_id: Lookup,
    pub secret_access_key: Lookup,
    pub region: Lookup,
    pub profile: Lookup,
    pub endpoint_url: Lookup,
}

impl Environment {
    /// What was found for `which`.
    pub open spec fn spec_get(self, which: Variable) -> Lookup {
        match which {
            Variable::AccessKeyId => self.access_key_id,
            Variable::SecretAccessKey => self.secret_access_key,
            Variable::Region => self.region,
            Variable::Profile => self.profile,
            Variable::EndpointUrl => self.endpoint_url,
        }
    }

    /// The environment in which nothing is set.
    pub open spec fn spec_unset() -> Environment {
        Environment {
            access_key_id: Lookup::Unset,
            secret_access_key: Lookup::Unset,
            region: Lookup::Unset,
            profile: Lookup::Unset,
            endpoint_url: Lookup::Unset,
        }
    }

    /// The environment with `found` in the place of `which` and the other
    /// four settings as they are.
    pub open spec fn spec_set(self, which: Variable, found: Lookup) -> Environment {
        match which {
            Variable::AccessKeyId => Environment { access_key_id: found, ..self },
            Variable::SecretAccessKey => Environment { secret_access_key: found, ..self },
            Variable::Region => Environment { region: found, ..self },
            Variable::Profile => Environment { profile: found, ..self },
            Variable::EndpointUrl => Environment { endpoint_url: found, ..self },
        }
    }

    /// An environment in which nothing is set.
    pub fn unset() -> (env: Environment)
        ensures
            env == Environment::spec_unset(),
    {
        Environment {
            access_key_id: Lookup::Unset,
            secret_access_key: Lookup::Unset,
            region: Lookup::Unset,
            profile: Lookup::Unset,
            endpoint_url: Lookup::Unset,
        }
    }

    /// What was found for `which`.
    pub fn get(&self, which: Variable) -> (found: &Lookup)
        ensures
            *found == self.spec_get(which),
    {
        match which {
            Variable::AccessKeyId => &self.access_key_id,
            Variable::SecretAccessKey => &self.secret_access_key,
            Variable::Region => &self.region,
            Variable::Profile => &self.profile,
            Variable::EndpointUrl => &self.endpoint_url,
        }
    }

    /// Records what was found for `which`; the other four settings stay.
    pub fn set(&mut self, which: Variable, found: Lookup)
        ensures
            *final(self) == old(self).spec_set(which, found),
    {
        match which {
            Variable::AccessKeyId => self.access_key_id = found,
            Variable::SecretAccessKey => self.secret_access_key = found,
            Variable::Region => self.region = found,
            Variable::Profile => self.profile = found,
            Variable::EndpointUrl => self.endpoint_url = found,
        }
    }
}

/// Why no configuration could be made.
#[derive(Debug, Clone, Copy, PartialEq, Eq, Structural)]
pub enum ConfigError {
    /// A required setting is not there, or is there with an empty value.
    Missing(Variable),
    /// A required setting is there, but its value is not text.
    Malformed(Variable),
}

impl ConfigError {
    /// The setting that the error is about.
    pub open spec fn spec_variable(self) -> Variable {
        match self {
            ConfigError::Missing(which) => which,
            ConfigError::Malformed(which) => which,
        }
    }

    /// The error in words: the name of the setting, and what is wrong
    /// with it.
    pub open spec fn spec_message(self) -> Seq<char> {
        match self {
            ConfigError::Missing(which) => which.spec_name() + " must be set"@,
            ConfigError::Malformed(which) => which.spec_name() + " must be valid Unicode"@,
        }
    }

    /// The setting that the error is about.
    pub fn variable(&self) -> (which: Variable)
        ensures
            which == self.spec_variable(),
    {
        match self {
            ConfigError::Missing(which) => *which,
            ConfigError::Malformed(which) => *which,
        }
    }

    /// The error in words, for the operator.
    pub fn message(&self) -> (text: String)
        ensures
            text@ == self.spec_message(),
    {
        match self {
            ConfigError::Missing(which) => String::from_str(which.name()).concat(" must be set"),
            ConfigError::Malformed(which) => String::from_str(which.name()).concat(
                " must be valid Unicode",
            ),
        }
    }
}

/// The mathematical content of a [`ClientConfig`].
pub struct ConfigModel {
    pub access_key: Seq<char>,
    pub secret_key: Seq<char>,
    pub region: Seq<char>,
    pub profile_name: Seq<char>,
    pub endpoint_override: Option<Seq<char>>,
    pub force_path_style: bool,
}

impl ConfigModel {
    /// Both credentials are non-empty, and path-style addressing is on
    /// exactly when an endpoint override is present.
    pub open spec fn valid(self) -> bool {
        &&& self.access_key.len() > 0
        &&& self.secret_key.len() > 0
        &&& self.force_path_style == self.endpoint_override.is_some()
    }
}

/// A credential as `configure` judges it: it must be there, be text, and be
/// non-empty.
pub open spec fn credential(found: Lookup, which: Variable) -> Result<Seq<char>, ConfigError> {
    match found {
        Lookup::Unset => Err(ConfigError::Missing(which)),
        Lookup::Malformed => Err(ConfigError::Malformed(which)),
        Lookup::Text(value) => if value@.len() == 0 {
            Err(ConfigError::Missing(which))
        } else {
            Ok(value@)
        },
    }
}

/// An optional setting with a default: the value that was read, else `fallback`.
pub open spec fn or_fallback(found: Lookup, fallback: Seq<char>) -> Seq<char> {
    match found.text() {
        Some(value) => value,
        None => fallback,
    }
}

/// What `configure` makes of an environment. The access key is judged
/// before the secret key, so its error is the one reported when both fail.
pub open spec fn configured(env: Environment) -> Result<ConfigModel, ConfigError> {
    match credential(env.access_key_id, Variable::AccessKeyId) {
        Err(fault) => Err(fault),
        Ok(access_key) => match credential(env.secret_access_key, Variable::SecretAccessKey) {
            Err(fault) => Err(fault),
            Ok(secret_key) => Ok(
                ConfigModel {
                    access_key,
                    secret_key,
                    region: or_fallback(env.region, DEFAULT_REGION@),
                    profile_name: or_fallback(env.profile, DEFAULT_PROFILE@),
                    endpoint_override: env.endpoint_url.text(),
                    force_path_style: env.endpoint_url.text().is_some(),
                },
            ),
        },
    }
}

/// The settings of one backend connection.
pub struct ClientConfig {
    access_key: String,
    secret_key: String,
    region: String,
    profile_name: String,
    endpoint_override: Option<String>,
    force_path_style: bool,
}

impl View for ClientConfig {
    type V = ConfigModel;

    closed spec fn view(&self) -> ConfigModel {
        ConfigModel {
            access_key: self.access_key@,
            secret_key: self.secret_key@,
            region: self.region@,
            profile_name: self.profile_name@,
            endpoint_override: match self.endpoint_override {
                Some(url) => Some(url@),
                None => None,
            },
            force_path_style: self.force_path_style,
        }
    }
}

impl ClientConfig {
    /// Holds of every configuration there is: `configure` makes no other.
    #[verifier::type_invariant]
    pub open spec fn well_formed(self) -> bool {
        self@.valid()
    }

    /// The access key: never empty.
    pub fn access_key(&self) -> (text: &str)
        ensures
            text@ == self@.access_key,
            text@.len() > 0,
    {
        proof {
            use_type_invariant(self);
        }
        self.access_key.as_str()
    }

    /// The secret key: never empty.
    pub fn secret_key(&self) -> (text: &str)
        ensures
            text@ == self@.secret_key,
            text@.len() > 0,
    {
        proof {
            use_type_invariant(self);
        }
        self.secret_key.as_str()
    }

    /// The region that requests are signed for.
    pub fn region(&self) -> (text: &str)
        ensures
            text@ == self@.region,
    {
        self.region.as_str()
    }

    /// The name of the profile that the credentials are held under.
    pub fn profile_name(&self) -> (text: &str)
        ensures
            text@ == self@.profile_name,
    {
        self.profile_name.as_str()
    }

    /// The endpoint that stands in for the backend's own, if there is one.
    /// There is one exactly when path-style addressing is on.
    pub fn endpoint_override(&self) -> (url: Option<&str>)
        ensures
            match url {
                Some(text) => self@.endpoint_override == Some(text@),
                None => self@.endpoint_override.is_none(),
            },
            url.is_some() == self@.force_path_style,
    {
        proof {
            use_type_invariant(self);
        }
        match &self.endpoint_override {
            Some(text) => Some(text.as_str()),
            None => None,
        }
    }

    /// Whether requests put the bucket's name in the path of the URL.
    pub fn force_path_style(&self) -> (on: bool)
        ensures
            on == self@.force_path_style,
            on == self@.endpoint_override.is_some(),
    {
        proof {
            use_type_invariant(self);
        }
        self.force_path_style
    }
}

fn read_credential(found: &Lookup, which: Variable) -> (out: Result<String, ConfigError>)
    ensures
        match out {
            Ok(text) => credential(*found, which) == Ok::<Seq<char>, ConfigError>(text@),
            Err(fault) => credential(*found, which) == Err::<Seq<char>, ConfigError>(fault),
        },
{
    match found {
        Lookup::Unset => Err(ConfigError::Missing(which)),
        Lookup::Malformed => Err(ConfigError::Malformed(which)),
        Lookup::Text(value) => if value.as_str().is_empty() {
            Err(ConfigError::Missing(which))
        } else {
            Ok(value.clone())
        },
    }
}

fn read_or_fallback(found: &Lookup, fallback: &str) -> (text: String)
    ensures
        text@ == or_fallback(*found, fallback@),
{
    match found {
        Lookup::Text(value) => value.clone(),
        _ => String::from_str(fallback),
    }
}

/// Makes the configuration of a client from the settings that were found.
///
/// It fails when a credential is missing, empty or not text, and names the
/// first such credential. The region and the profile name fall back to their
/// defaults, and an endpoint override that could be read turns path-style
/// addressing on.
pub fn configure(env: &Environment) -> (out: Result<ClientConfig, ConfigError>)
    ensures
        match out {
            Ok(config) => configured(*env) == Ok::<ConfigModel, ConfigError>(config@),
            Err(fault) => configured(*env) == Err::<ConfigModel, ConfigError>(fault),
        },
        out.is_ok() <==> credential(env.access_key_id, Variable::AccessKeyId).is_ok() && credential(
            env.secret_access_key,
            Variable::SecretAccessKey,
        ).is_ok(),
        out matches Ok(config) ==> config@.valid() && config@.force_path_style
            == env.endpoint_url.text().is_some(),
{
    let access_key = match read_credential(&env.access_key_id, Variable::AccessKeyId) {
        Ok(text) => text,
        Err(fault) => { return Err(fault); },
    };
    let secret_key = match read_credential(&env.secret_access_key, Variable::SecretAccessKey) {
        Ok(text) => text,
        Err(fault) => { return Err(fault); },
    };
    let region = read_or_fallback(&env.region, DEFAULT_REGION);
    let profile_name = read_or_fallback(&env.profile, DEFAULT_PROFILE);
    let endpoint_override = match &env.endpoint_url {
        Lookup::Text(url) => Some(url.clone()),
        _ => None,
    };
    let force_path_style = endpoint_override.is_some();
    Ok(
        ClientConfig {
            access_key,
            secret_key,
            region,
            profile_name,
            endpoint_override,
            force_path_style,
        },
    )
}

/// A configuration is made only when both credentials are there: if either
/// is missing, empty or not text, `configure` fails, and the error names the
/// access key when that one is at fault, else the secret key.
pub proof fn lemma_missing_credential_is_refused(env: Environment)
    requires
        credential(env.access_key_id, Variable::AccessKeyId).is_err() || credential(
            env.secret_access_key,
            Variable::SecretAccessKey,
        ).is_err(),
    ensures
        configured(env) matches Err(fault) && (fault.spec_variable() == if credential(
            env.access_key_id,
            Variable::AccessKeyId,
        ).is_err() {
            Variable::AccessKeyId
        } else {
            Variable::SecretAccessKey
        }),
{
}

/// Path-style addressing is on when an endpoint override was read, and off
/// when none was: every configuration that `configure` makes is valid.
pub proof fn lemma_path_style_follows_endpoint(env: Environment)
    ensures
        configured(env) matches Ok(config) ==> config.valid() && config.force_path_style == (
        env.endpoint_url is Text) && config.endpoint_override == env.endpoint_url.text(),
{
}

} // verus!
