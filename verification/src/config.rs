//! The settings of the client: what they hold, how a token from the
//! environment takes part in them, and where their files are looked for.
//! The files themselves are read and written elsewhere; the functions here
//! decide on what was read.

use vstd::prelude::*;
use vstd::string::*;
use crate::package::PackageType;
use crate::path::{join, joined};

verus! {

/// The name of the file that links a directory to a project.
pub const PROJ_CONF_FILE: &'static str = ".phylum_project";

/// The name of the environment variable that may hold an API key.
pub const API_KEY_VARIABLE: &'static str = "PHYLUM_API_KEY";

/// How many parent directories are searched for a project file, beyond the
/// first one.
pub const MAX_DEPTH: u8 = 32;

/// Where the service is reached.
#[derive(Debug, Clone)]
pub struct ConnectionInfo {
    pub uri: String,
}

/// A token that stands for a login.
#[derive(Debug, Clone, PartialEq, Eq)]
pub struct RefreshToken {
    token: String,
}

impl View for RefreshToken {
    type V = Seq<char>;

    closed spec fn view(&self) -> Seq<char> {
        self.token@
    }
}

impl RefreshToken {
    /// A token with the given text.
    pub fn new(token: String) -> (made: Self)
        ensures
            made@ == token@,
    {
        RefreshToken { token }
    }

    /// The text of the token.
    pub fn as_str(&self) -> (text: &str)
        ensures
            text@ == self@,
    {
        self.token.as_str()
    }
}

/// The tokens of an `AuthInfo` as mathematical values.
pub struct AuthView {
    pub offline_access: Option<Seq<char>>,
    pub env_token: Option<Seq<char>>,
}

/// The tokens that the client may log in with: the one stored in the
/// settings and the one found in the environment.
#[derive(Debug, Clone)]
pub struct AuthInfo {
    offline_access: Option<RefreshToken>,
    env_token: Option<RefreshToken>,
}

/// The text of an optional token.
pub open spec fn token_view(token: Option<RefreshToken>) -> Option<Seq<char>> {
    match token {
        Some(held) => Some(held@),
        None => None,
    }
}

/// The token to log in with: the one from the environment unless it is
/// missing or empty, else the stored one unless it is missing or empty.
pub open spec fn effective_token(auth: AuthView) -> Option<Seq<char>> {
    if auth.env_token.is_some() && auth.env_token.unwrap().len() > 0 {
        auth.env_token
    } else if auth.offline_access.is_some() && auth.offline_access.unwrap().len() > 0 {
        auth.offline_access
    } else {
        None
    }
}

impl View for AuthInfo {
    type V = AuthView;

    closed spec fn view(&self) -> AuthView {
        AuthView {
            offline_access: token_view(self.offline_access),
            env_token: token_view(self.env_token),
        }
    }
}

impl Default for AuthInfo {
    fn default() -> (auth: Self)
        ensures
            auth@ == (AuthView { offline_access: None, env_token: None }),
    {
        AuthInfo { offline_access: None, env_token: None }
    }
}

impl AuthInfo {
    /// Tokens as the settings file holds them: a stored token or none, and
    /// none from the environment.
    pub fn new(offline_access: Option<RefreshToken>) -> (auth: Self)
        ensures
            auth@ == (AuthView { offline_access: token_view(offline_access), env_token: None }),
    {
        Self { offline_access, env_token: None }
    }

    /// The token to log in with, if there is one.
    pub fn offline_access(&self) -> (token: Option<&RefreshToken>)
        ensures
            match token {
                Some(held) => effective_token(self@) == Some(held@),
                None => effective_token(self@).is_none(),
            },
    {
        match &self.env_token {
            Some(held) => {
                if !held.as_str().is_empty() {
                    return Some(held);
                }
            },
            None => {},
        }
        match &self.offline_access {
            Some(held) => {
                if !held.as_str().is_empty() {
                    return Some(held);
                }
            },
            None => {},
        }
        None
    }

    /// Stores a token. The token from the environment stays as it is.
    pub fn set_offline_access(&mut self, offline_access: RefreshToken)
        ensures
            final(self)@ == (AuthView {
                offline_access: Some(offline_access@),
                env_token: old(self)@.env_token,
            }),
    {
        self.offline_access = Some(offline_access);
    }

    /// The token that the settings file holds, if it holds one.
    pub fn stored_token(&self) -> (token: Option<&RefreshToken>)
        ensures
            match token {
                Some(held) => self@.offline_access == Some(held@),
                None => self@.offline_access.is_none(),
            },
    {
        self.offline_access.as_ref()
    }

    /// The token found in the environment, if one was set.
    pub fn env_token(&self) -> (token: Option<&RefreshToken>)
        ensures
            match token {
                Some(held) => self@.env_token == Some(held@),
                None => self@.env_token.is_none(),
            },
    {
        self.env_token.as_ref()
    }

    /// Takes a token from the environment. The stored token stays as it is.
    pub fn set_env_token(&mut self, env_token: RefreshToken)
        ensures
            final(self)@ == (AuthView {
                offline_access: old(self)@.offline_access,
                env_token: Some(env_token@),
            }),
    {
        self.env_token = Some(env_token);
    }
}

/// The settings as mathematical values.
pub struct ConfigView {
    pub uri: Seq<char>,
    pub auth: AuthView,
    pub request_type: PackageType,
    pub last_update: Option<usize>,
    pub ignore_certs: bool,
}

/// The settings of the client.
#[derive(Debug, Clone)]
pub struct Config {
    pub connection: ConnectionInfo,
    pub auth_info: AuthInfo,
    pub request_type: PackageType,
    pub last_update: Option<usize>,
    pub ignore_certs: bool,
}

impl View for Config {
    type V = ConfigView;

    open spec fn view(&self) -> ConfigView {
        ConfigView {
            uri: self.connection.uri@,
            auth: self.auth_info@,
            request_type: self.request_type,
            last_update: self.last_update,
            ignore_certs: self.ignore_certs,
        }
    }
}

/// The settings of a client that has none yet.
pub open spec fn default_settings() -> ConfigView {
    ConfigView {
        uri: "https://api.phylum.io"@,
        auth: AuthView { offline_access: None, env_token: None },
        request_type: PackageType::Npm,
        last_update: None,
        ignore_certs: false,
    }
}

impl Default for Config {
    fn default() -> (config: Self)
        ensures
            config@ == default_settings(),
    {
        Config {
            connection: ConnectionInfo { uri: "https://api.phylum.io".to_owned() },
            auth_info: AuthInfo::default(),
            request_type: PackageType::Npm,
            ignore_certs: false,
            last_update: None,
        }
    }
}

/// The value of a switch that the settings file may leave out or leave
/// empty: it is then off.
pub fn default_option_bool(value: Option<bool>) -> (switch: bool)
    ensures
        switch == (value == Some(true)),
{
    match value {
        Some(on) => on,
        None => false,
    }
}

/// Why the settings file gave no settings.
#[derive(Debug, Clone, PartialEq, Eq)]
pub enum LoadError {
    /// There is no such file.
    NotFound,
    /// The file could not be read or understood; the text says why.
    Failed(String),
}

/// What the environment holds under the name of the API key.
#[derive(Debug, Clone, PartialEq, Eq)]
pub enum EnvKey {
    /// The variable is set to this text.
    Present(String),
    /// The variable is set to something that is no text.
    NotUnicode,
    /// The variable is not set.
    NotPresent,
}

/// What the user is told about an API key that was not used.
#[derive(Debug, Clone, Copy, PartialEq, Eq, Structural)]
pub enum KeyWarning {
    /// The variable is set and empty.
    Empty,
    /// The variable is set to something that is no text.
    Invalid,
}

impl KeyWarning {
    /// The words of the warning.
    pub fn message(&self) -> (text: String)
        ensures
            text@ == match self {
                KeyWarning::Empty => "Ignoring empty PHYLUM_API_KEY"@,
                KeyWarning::Invalid => "Ignoring invalid PHYLUM_API_KEY"@,
            },
    {
        match self {
            KeyWarning::Empty => "Ignoring empty PHYLUM_API_KEY".to_owned(),
            KeyWarning::Invalid => "Ignoring invalid PHYLUM_API_KEY".to_owned(),
        }
    }
}

/// The settings to work with, and the warning that goes with them.
#[derive(Debug, Clone)]
pub struct Loaded {
    pub config: Config,
    pub warning: Option<KeyWarning>,
}

/// The settings `base` once the API key of the environment is taken in: a key
/// that is present and not empty becomes the token from the environment,
/// any other leaves the settings as they are.
pub open spec fn with_api_key(base: ConfigView, api_key: EnvKey) -> ConfigView {
    match api_key {
        EnvKey::Present(key) if key@.len() > 0 => ConfigView {
            auth: AuthView { offline_access: base.auth.offline_access, env_token: Some(key@) },
            ..base
        },
        _ => base,
    }
}

/// The warning that an API key calls for.
pub open spec fn warning_for(api_key: EnvKey) -> Option<KeyWarning> {
    match api_key {
        EnvKey::Present(key) => if key@.len() > 0 {
            None
        } else {
            Some(KeyWarning::Empty)
        },
        EnvKey::NotUnicode => Some(KeyWarning::Invalid),
        EnvKey::NotPresent => None,
    }
}

/// Decides on the settings to work with, from what reading the settings file
/// gave and what the environment holds as API key.
///
/// A file that does not exist gives the default settings; any other failure
/// is handed back with its text, and no settings with it. Into the settings
/// goes the API key, if it is present and not empty; one that is empty or no
/// text is left out with a warning.
pub fn read_configuration(parsed: Result<Config, LoadError>, api_key: EnvKey) -> (result: Result<
    Loaded,
    String,
>)
    ensures
        match parsed {
            Ok(config) => result.is_ok() && result.unwrap().config@ == with_api_key(
                config@,
                api_key,
            ) && result.unwrap().warning == warning_for(api_key),
            Err(LoadError::NotFound) => result.is_ok() && result.unwrap().config@ == with_api_key(
                default_settings(),
                api_key,
            ) && result.unwrap().warning == warning_for(api_key),
            Err(LoadError::Failed(cause)) => result.is_err() && result.unwrap_err()@ == cause@,
        },
{
    let mut config: Config = match parsed {
        Ok(config) => config,
        Err(LoadError::NotFound) => Config::default(),
        Err(LoadError::Failed(cause)) => {
            return Err(cause);
        },
    };
    let warning: Option<KeyWarning> = match api_key {
        EnvKey::Present(key) => {
            if !key.as_str().is_empty() {
                config.auth_info.set_env_token(RefreshToken::new(key));
                None
            } else {
                Some(KeyWarning::Empty)
            }
        },
        EnvKey::NotUnicode => Some(KeyWarning::Invalid),
        EnvKey::NotPresent => None,
    };
    Ok(Loaded { config, warning })
}

/// What the file of a linked directory says, as mathematical values.
pub struct ProjectConfigView {
    pub id: u128,
    pub name: Seq<char>,
    pub created_at: i64,
    pub group_name: Option<Seq<char>>,
}

/// The link of a directory to a project: the project's identifier as a
/// 128-bit number, its name, the time of linking in nanoseconds since the
/// Unix epoch, and the group that owns the project, if one does.
#[derive(Debug, Clone, PartialEq, Eq)]
pub struct ProjectConfig {
    pub id: u128,
    pub name: String,
    pub created_at: i64,
    pub group_name: Option<String>,
}

impl View for ProjectConfig {
    type V = ProjectConfigView;

    open spec fn view(&self) -> ProjectConfigView {
        ProjectConfigView {
            id: self.id,
            name: self.name@,
            created_at: self.created_at,
            group_name: match self.group_name {
                Some(group) => Some(group@),
                None => None,
            },
        }
    }
}

/// The `depth`-th directory of the search that starts at `start`: `start`
/// itself, then its parent, written as `start` extended by `..`, and so on.
pub open spec fn search_directory(start: Seq<char>, depth: nat) -> Seq<char>
    decreases depth,
{
    if depth == 0 {
        start
    } else {
        joined(search_directory(start, (depth - 1) as nat), ".."@)
    }
}

/// The `depth`-th place where a project file is looked for.
pub open spec fn candidate(start: Seq<char>, depth: nat) -> Seq<char> {
    joined(search_directory(start, depth), PROJ_CONF_FILE@)
}

/// Whether the probe at `depth` is the first that found a file, among those
/// that the search makes.
pub open spec fn is_first_hit(probes: Seq<bool>, depth: int) -> bool {
    &&& 0 <= depth < probes.len()
    &&& depth <= MAX_DEPTH + 1
    &&& probes[depth]
    &&& forall|earlier: int| 0 <= earlier < depth ==> !probes[earlier]
}

/// Whether none of the probes that the search makes found a file.
pub open spec fn no_hit(probes: Seq<bool>) -> bool {
    forall|depth: int| 0 <= depth < probes.len() && depth <= MAX_DEPTH + 1 ==> !probes[depth]
}

/// The `depth`-th directory of the search that starts at `start`.
fn directory_at(start: &str, depth: u8) -> (directory: String)
    ensures
        directory@ == search_directory(start@, depth as nat),
{
    let mut directory: String = start.to_owned();
    let mut level: u8 = 0;
    while level < depth
        invariant
            level <= depth,
            directory@ == search_directory(start@, level as nat),
        decreases depth - level,
    {
        directory = join(directory.as_str(), "..");
        level += 1;
    }
    directory
}

/// The `depth`-th place where a project file is looked for, counted from 0:
/// the file's name in the starting directory, then in its parent, and so on.
pub fn project_conf_candidate(starting_directory: &str, depth: u8) -> (path: String)
    ensures
        path@ == candidate(starting_directory@, depth as nat),
{
    let directory: String = directory_at(starting_directory, depth);
    join(directory.as_str(), PROJ_CONF_FILE)
}

/// Picks the project file of a directory from the answers of the file
/// system. `probes[depth]` says whether the candidate at `depth` is a file.
/// The search looks at the starting directory and at up to `MAX_DEPTH + 1`
/// directories above it, nearest first, and takes the first candidate that is
/// a file. Answers beyond that depth are not looked at, and a candidate
/// without an answer counts as no file.
pub fn find_project_conf(starting_directory: &str, probes: &Vec<bool>) -> (found: Option<String>)
    ensures
        match found {
            Some(path) => exists|depth: int|
                is_first_hit(probes@, depth) && path@ == candidate(
                    starting_directory@,
                    depth as nat,
                ),
            None => no_hit(probes@),
        },
{
    let mut attempts: u8 = 0;
    loop
        invariant
            attempts <= MAX_DEPTH + 1,
            forall|earlier: int| 0 <= earlier < attempts && earlier < probes@.len() ==> !probes@[earlier],
        decreases MAX_DEPTH + 2 - attempts,
    {
        let depth: usize = attempts as usize;
        if depth < probes.len() && probes[depth] {
            assert(is_first_hit(probes@, attempts as int));
            return Some(project_conf_candidate(starting_directory, attempts));
        }
        if attempts > MAX_DEPTH {
            return None;
        }
        attempts += 1;
    }
}

/// The path of the settings file below the directory in which the user's
/// configuration lives.
pub fn get_home_settings_path(config_dir: &str) -> (path: String)
    ensures
        path@ == joined(joined(config_dir@, "phylum"@), "settings.yaml"@),
{
    let directory: String = join(config_dir, "phylum");
    join(directory.as_str(), "settings.yaml")
}

} // verus!
