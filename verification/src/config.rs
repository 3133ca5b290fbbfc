//! The bot's configuration, read from environment variables.
use crate::text::{joined, parse_u64, parsed_u64, same_text};
use vstd::prelude::*;

verus! {

/// The environment variables the configuration is read from.
#[derive(Debug, Clone, Copy, PartialEq, Eq, Structural)]
pub enum EnvVar {
    Environment,
    SpotifyClientId,
    SpotifyClientSecret,
    DiscordToken,
    DiscordTestingGuildId,
}

/// The name of an environment variable.
pub open spec fn env_var_name(var: EnvVar) -> Seq<char> {
    match var {
        EnvVar::Environment => "ENVIRONMENT"@,
        EnvVar::SpotifyClientId => "SPOTIFY_CLIENT_ID"@,
        EnvVar::SpotifyClientSecret => "SPOTIFY_CLIENT_SECRET"@,
        EnvVar::DiscordToken => "DISCORD_TOKEN"@,
        EnvVar::DiscordTestingGuildId => "DISCORD_TESTING_GUILD_ID"@,
    }
}

impl EnvVar {
    pub fn key(&self) -> (r: &'static str)
        ensures
            r@ == env_var_name(*self),
    {
        match self {
            EnvVar::Environment => "ENVIRONMENT",
            EnvVar::SpotifyClientId => "SPOTIFY_CLIENT_ID",
            EnvVar::SpotifyClientSecret => "SPOTIFY_CLIENT_SECRET",
            EnvVar::DiscordToken => "DISCORD_TOKEN",
            EnvVar::DiscordTestingGuildId => "DISCORD_TESTING_GUILD_ID",
        }
    }
}

/// The other name under which the testing guild may be given.
pub open spec fn legacy_guild_key() -> Seq<char> {
    "TESTING_GUILD_ID"@
}

/// Where the bot runs.
#[derive(Debug, Clone, Copy, PartialEq, Eq, Structural)]
pub enum Environment {
    Development,
    Production,
}

/// Why the configuration could not be read.
#[derive(Debug, Clone, PartialEq, Eq)]
pub enum ConfigError {
    MissingEnvironmentVariable(String),
    FailedToParse(String),
    InvalidEnvironment(String),
}

/// A configuration error, by its variant and its text.
pub enum ConfigErrorView {
    MissingEnvironmentVariable(Seq<char>),
    FailedToParse(Seq<char>),
    InvalidEnvironment(Seq<char>),
}

impl View for ConfigError {
    type V = ConfigErrorView;

    open spec fn view(&self) -> ConfigErrorView {
        match self {
            ConfigError::MissingEnvironmentVariable(s) => ConfigErrorView::MissingEnvironmentVariable(
                s@,
            ),
            ConfigError::FailedToParse(s) => ConfigErrorView::FailedToParse(s@),
            ConfigError::InvalidEnvironment(s) => ConfigErrorView::InvalidEnvironment(s@),
        }
    }
}

/// The configuration of the bot.
#[derive(Debug, Clone)]
pub struct Config {
    pub environment: Environment,
    pub spotify_client_id: String,
    pub spotify_client_secret: String,
    pub discord_token: String,
    pub discord_testing_guild_id: Option<u64>,
}

/// The content of a configuration.
pub struct ConfigView {
    pub environment: Environment,
    pub spotify_client_id: Seq<char>,
    pub spotify_client_secret: Seq<char>,
    pub discord_token: Seq<char>,
    pub discord_testing_guild_id: Option<u64>,
}

impl View for Config {
    type V = ConfigView;

    open spec fn view(&self) -> ConfigView {
        ConfigView {
            environment: self.environment,
            spotify_client_id: self.spotify_client_id@,
            spotify_client_secret: self.spotify_client_secret@,
            discord_token: self.discord_token@,
            discord_testing_guild_id: self.discord_testing_guild_id,
        }
    }
}

/// The environment variables of the process that hold Unicode text, as
/// (name, value) pairs.
#[derive(Debug, Clone)]
pub struct EnvSnapshot {
    vars: Vec<(String, String)>,
}

impl View for EnvSnapshot {
    type V = Seq<(Seq<char>, Seq<char>)>;

    closed spec fn view(&self) -> Seq<(Seq<char>, Seq<char>)> {
        self.vars@.map_values(|p: (String, String)| (p.0@, p.1@))
    }
}

/// The value of the first variable named `key`, if there is one.
pub open spec fn env_value(vars: Seq<(Seq<char>, Seq<char>)>, key: Seq<char>) -> Option<Seq<char>>
    decreases vars.len(),
{
    if vars.len() == 0 {
        None
    } else if vars[0].0 == key {
        Some(vars[0].1)
    } else {
        env_value(vars.drop_first(), key)
    }
}

/// The value of the first of `keys` that is set, or the error naming all of them.
pub open spec fn any_env_value(vars: Seq<(Seq<char>, Seq<char>)>, keys: Seq<Seq<char>>) -> Result<
    Seq<char>,
    ConfigErrorView,
>
    decreases keys.len(),
{
    if keys.len() == 0 {
        Err(ConfigErrorView::MissingEnvironmentVariable(Seq::empty()))
    } else {
        match env_value(vars, keys[0]) {
            Some(v) => Ok(v),
            None => match any_env_value(vars, keys.drop_first()) {
                Ok(v) => Ok(v),
                Err(_) => Err(ConfigErrorView::MissingEnvironmentVariable(joined(keys, " or "@))),
            },
        }
    }
}

/// The value of one variable, or the error naming it.
pub open spec fn required_env_value(vars: Seq<(Seq<char>, Seq<char>)>, var: EnvVar) -> Result<
    Seq<char>,
    ConfigErrorView,
> {
    match env_value(vars, env_var_name(var)) {
        Some(v) => Ok(v),
        None => Err(ConfigErrorView::MissingEnvironmentVariable(env_var_name(var))),
    }
}

/// A character in ASCII lowercase.
pub open spec fn ascii_lower_char(c: char) -> char {
    if 'A' <= c <= 'Z' {
        ((c as u32) + 32) as char
    } else {
        c
    }
}

/// A text in ASCII lowercase, as `str::to_ascii_lowercase` makes it.
pub open spec fn ascii_lower(s: Seq<char>) -> Seq<char> {
    s.map_values(|c: char| ascii_lower_char(c))
}

/// The lowercase letter that stands at `k` in the alphabet.
proof fn lemma_lower_letter(k: int)
    requires
        0 <= k < 26,
    ensures
        "abcdefghijklmnopqrstuvwxyz"@[k] == (('A' as u32 + k + 32) as char),
{
    reveal_strlit("abcdefghijklmnopqrstuvwxyz");
    assert(k == 0 || k == 1 || k == 2 || k == 3 || k == 4 || k == 5 || k == 6 || k == 7 || k == 8
        || k == 9 || k == 10 || k == 11 || k == 12 || k == 13 || k == 14 || k == 15 || k == 16 || k
        == 17 || k == 18 || k == 19 || k == 20 || k == 21 || k == 22 || k == 23 || k == 24 || k
        == 25);
}

/// The text with ASCII letters 'A' to 'Z' turned into 'a' to 'z', as
/// `str::to_ascii_lowercase` does; every other character stays.
fn to_ascii_lowercase(s: &str) -> (r: String)
    ensures
        r@ == ascii_lower(s@),
{
    let letters = "abcdefghijklmnopqrstuvwxyz";
    proof {
        reveal_strlit("abcdefghijklmnopqrstuvwxyz");
    }
    let n = s.unicode_len();
    let mut out = String::new();
    let mut i: usize = 0;
    while i < n
        invariant
            i <= n,
            n == s@.len(),
            letters@ == "abcdefghijklmnopqrstuvwxyz"@,
            letters@.len() == 26,
            out@ == ascii_lower(s@.take(i as int)),
        decreases n - i,
    {
        let c = s.get_char(i);
        if 'A' <= c && c <= 'Z' {
            let k = (c as u32 - 'A' as u32) as usize;
            proof {
                lemma_lower_letter(k as int);
            }
            let piece = letters.substring_char(k, k + 1);
            assert(piece@ =~= seq![ascii_lower_char(c)]);
            out.append(piece);
        } else {
            let piece = s.substring_char(i, i + 1);
            assert(piece@ =~= seq![ascii_lower_char(c)]);
            out.append(piece);
        }
        assert(ascii_lower(s@.take(i + 1)) =~= ascii_lower(s@.take(i as int)) + seq![
            ascii_lower_char(c),
        ]);
        i = i + 1;
    }
    assert(s@.take(n as int) =~= s@);
    out
}

/// The environment a lowercase name stands for.
pub open spec fn environment_named(name: Seq<char>) -> Option<Environment> {
    if name == "dev"@ || name == "development"@ {
        Some(Environment::Development)
    } else if name == "prod"@ || name == "production"@ {
        Some(Environment::Production)
    } else {
        None
    }
}

/// The configuration that a set of environment variables describes, or the
/// first thing wrong with them: the environment, then (in development) the
/// testing guild, then the Spotify client id, its secret and the Discord token.
pub open spec fn config_from(vars: Seq<(Seq<char>, Seq<char>)>) -> Result<
    ConfigView,
    ConfigErrorView,
> {
    match any_env_value(vars, seq![env_var_name(EnvVar::Environment)]) {
        Err(e) => Err(e),
        Ok(raw) => match environment_named(ascii_lower(raw)) {
            None => Err(ConfigErrorView::InvalidEnvironment(ascii_lower(raw))),
            Some(environment) => {
                let guild: Result<Option<u64>, ConfigErrorView> = if environment
                    == Environment::Development {
                    match any_env_value(
                        vars,
                        seq![env_var_name(EnvVar::DiscordTestingGuildId), legacy_guild_key()],
                    ) {
                        Err(e) => Err(e),
                        Ok(text) => match parsed_u64(text) {
                            Some(id) => Ok(Some(id)),
                            None => Err(ConfigErrorView::FailedToParse(text)),
                        },
                    }
                } else {
                    Ok(None)
                };
                match guild {
                    Err(e) => Err(e),
                    Ok(discord_testing_guild_id) => match required_env_value(
                        vars,
                        EnvVar::SpotifyClientId,
                    ) {
                        Err(e) => Err(e),
                        Ok(id) => match required_env_value(vars, EnvVar::SpotifyClientSecret) {
                            Err(e) => Err(e),
                            Ok(secret) => match required_env_value(vars, EnvVar::DiscordToken) {
                                Err(e) => Err(e),
                                Ok(token) => Ok(
                                    ConfigView {
                                        environment,
                                        spotify_client_id: id,
                                        spotify_client_secret: secret,
                                        discord_token: token,
                                        discord_testing_guild_id,
                                    },
                                ),
                            },
                        },
                    },
                }
            },
        },
    }
}

/// A configuration read from any environment has a testing guild exactly
/// when it is for development.
pub proof fn testing_guild_only_in_development(vars: Seq<(Seq<char>, Seq<char>)>)
    ensures
        config_from(vars) matches Ok(c) ==> (c.environment == Environment::Development
            <==> c.discord_testing_guild_id is Some),
{
}

impl EnvSnapshot {
    /// A snapshot of the given (name, value) pairs.
    pub fn new(vars: Vec<(String, String)>) -> (r: Self)
        ensures
            r@ == vars@.map_values(|p: (String, String)| (p.0@, p.1@)),
    {
        EnvSnapshot { vars }
    }

    /// The value of the variable named `key`, as `std::env::var` gives it.
    pub fn var(&self, key: &str) -> (r: Option<String>)
        ensures
            match r {
                Some(v) => env_value(self@, key@) == Some(v@),
                None => env_value(self@, key@) is None,
            },
    {
        let n = self.vars.len();
        let mut i: usize = 0;
        assert(self@.skip(0) =~= self@);
        while i < n
            invariant
                i <= n,
                n == self@.len(),
                env_value(self@, key@) == env_value(self@.skip(i as int), key@),
            decreases n - i,
        {
            assert(self@.skip(i as int).drop_first() =~= self@.skip(i + 1));
            assert(self@[i as int] == (self.vars@[i as int].0@, self.vars@[i as int].1@));
            if same_text(self.vars[i].0.as_str(), key) {
                return Some(self.vars[i].1.clone());
            }
            i = i + 1;
        }
        None
    }
}

impl Config {
    /// Reads the configuration from the environment variables.
    pub fn from_env(env: &EnvSnapshot) -> (r: Result<Self, ConfigError>)
        ensures
            match r {
                Ok(c) => config_from(env@) == Ok::<ConfigView, ConfigErrorView>(c@),
                Err(e) => config_from(env@) == Err::<ConfigView, ConfigErrorView>(e@),
            },
    {
        let environment_keys = vec![EnvVar::Environment.key()];
        assert(environment_keys@.map_values(|k: &str| k@) =~= seq![
            env_var_name(EnvVar::Environment),
        ]);
        let raw = match Self::read_any_env_var(env, &environment_keys) {
            Ok(v) => v,
            Err(e) => return Err(e),
        };
        let lowered = to_ascii_lowercase(raw.as_str());
        let environment = if same_text(lowered.as_str(), "dev") || same_text(
            lowered.as_str(),
            "development",
        ) {
            Environment::Development
        } else if same_text(lowered.as_str(), "prod") || same_text(lowered.as_str(), "production") {
            Environment::Production
        } else {
            return Err(ConfigError::InvalidEnvironment(lowered));
        };

        let discord_testing_guild_id = if environment == Environment::Development {
            let guild_keys = vec![EnvVar::DiscordTestingGuildId.key(), "TESTING_GUILD_ID"];
            assert(guild_keys@.map_values(|k: &str| k@) =~= seq![
                env_var_name(EnvVar::DiscordTestingGuildId),
                legacy_guild_key(),
            ]);
            let guild_id = match Self::read_any_env_var(env, &guild_keys) {
                Ok(v) => v,
                Err(e) => return Err(e),
            };
            match parse_u64(guild_id.as_str()) {
                Some(id) => Some(id),
                None => return Err(ConfigError::FailedToParse(guild_id)),
            }
        } else {
            None
        };

        let spotify_client_id = match Self::read_in_env_var(env, EnvVar::SpotifyClientId) {
            Ok(v) => v,
            Err(e) => return Err(e),
        };
        let spotify_client_secret = match Self::read_in_env_var(env, EnvVar::SpotifyClientSecret) {
            Ok(v) => v,
            Err(e) => return Err(e),
        };
        let discord_token = match Self::read_in_env_var(env, EnvVar::DiscordToken) {
            Ok(v) => v,
            Err(e) => return Err(e),
        };
        Ok(
            Config {
                environment,
                spotify_client_id,
                spotify_client_secret,
                discord_token,
                discord_testing_guild_id,
            },
        )
    }

    pub fn is_dev(&self) -> (r: bool)
        ensures
            r == (self.environment == Environment::Development),
    {
        self.environment == Environment::Development
    }

    fn read_in_env_var(env: &EnvSnapshot, env_var: EnvVar) -> (r: Result<String, ConfigError>)
        ensures
            match r {
                Ok(v) => required_env_value(env@, env_var) == Ok::<Seq<char>, ConfigErrorView>(
                    v@,
                ),
                Err(e) => required_env_value(env@, env_var) == Err::<Seq<char>, ConfigErrorView>(
                    e@,
                ),
            },
    {
        match env.var(env_var.key()) {
            Some(v) => Ok(v),
            None => Err(ConfigError::MissingEnvironmentVariable(String::from_str(env_var.key()))),
        }
    }

    fn read_any_env_var(env: &EnvSnapshot, keys: &Vec<&str>) -> (r: Result<String, ConfigError>)
        requires
            keys.len() > 0,
        ensures
            match r {
                Ok(v) => any_env_value(env@, keys@.map_values(|k: &str| k@)) == Ok::<
                    Seq<char>,
                    ConfigErrorView,
                >(v@),
                Err(e) => any_env_value(env@, keys@.map_values(|k: &str| k@)) == Err::<
                    Seq<char>,
                    ConfigErrorView,
                >(e@),
            },
    {
        let ghost names = keys@.map_values(|k: &str| k@);
        let mut i: usize = 0;
        while i < keys.len()
            invariant
                i <= keys.len(),
                names == keys@.map_values(|k: &str| k@),
                keys.len() > 0,
                forall|m: int| 0 <= m < i ==> env_value(env@, #[trigger] names[m]) is None,
            decreases keys.len() - i,
        {
            match env.var(keys[i]) {
                Some(v) => {
                    proof {
                        lemma_any_env_value_first(env@, names, i as int);
                    }
                    return Ok(v);
                },
                None => {},
            }
            i = i + 1;
        }
        proof {
            lemma_any_env_value_none(env@, names);
        }
        let joined_keys = join_strs(keys, " or ");
        Err(ConfigError::MissingEnvironmentVariable(joined_keys))
    }
}

/// Joins text slices with `sep` in between.
fn join_strs(items: &Vec<&str>, sep: &str) -> (r: String)
    ensures
        r@ == joined(items@.map_values(|k: &str| k@), sep@),
{
    let ghost views = items@.map_values(|k: &str| k@);
    let mut out = String::new();
    let mut i: usize = 0;
    while i < items.len()
        invariant
            i <= items.len(),
            views == items@.map_values(|k: &str| k@),
            out@ == joined(views.take(i as int), sep@),
        decreases items.len() - i,
    {
        if i != 0 {
            out.append(sep);
        }
        out.append(items[i]);
        assert(views.take(i + 1).drop_last() =~= views.take(i as int));
        i = i + 1;
    }
    assert(views.take(items.len() as int) =~= views);
    out
}

/// When the first `i` keys are unset and key `i` is set, its value is the one found.
proof fn lemma_any_env_value_first(vars: Seq<(Seq<char>, Seq<char>)>, keys: Seq<Seq<char>>, i: int)
    requires
        0 <= i < keys.len(),
        forall|m: int| 0 <= m < i ==> env_value(vars, #[trigger] keys[m]) is None,
        env_value(vars, keys[i]) is Some,
    ensures
        any_env_value(vars, keys) == Ok::<Seq<char>, ConfigErrorView>(
            env_value(vars, keys[i])->0,
        ),
    decreases i,
{
    if i > 0 {
        assert forall|m: int| 0 <= m < i - 1 implies env_value(
            vars,
            #[trigger] keys.drop_first()[m],
        ) is None by {
            assert(keys.drop_first()[m] == keys[m + 1]);
        }
        lemma_any_env_value_first(vars, keys.drop_first(), i - 1);
        assert(env_value(vars, keys[0]) is None);
    }
}

/// When no key is set, the error names every key.
proof fn lemma_any_env_value_none(vars: Seq<(Seq<char>, Seq<char>)>, keys: Seq<Seq<char>>)
    requires
        keys.len() > 0,
        forall|m: int| 0 <= m < keys.len() ==> env_value(vars, #[trigger] keys[m]) is None,
    ensures
        any_env_value(vars, keys) == Err::<Seq<char>, ConfigErrorView>(
            ConfigErrorView::MissingEnvironmentVariable(joined(keys, " or "@)),
        ),
    decreases keys.len(),
{
    if keys.len() > 1 {
        assert forall|m: int| 0 <= m < keys.len() - 1 implies env_value(
            vars,
            #[trigger] keys.drop_first()[m],
        ) is None by {
            assert(keys.drop_first()[m] == keys[m + 1]);
        }
        lemma_any_env_value_none(vars, keys.drop_first());
        assert(env_value(vars, keys[0]) is None);
    } else {
        assert(env_value(vars, keys[0]) is None);
        assert(keys.drop_first().len() == 0);
        assert(any_env_value(vars, keys.drop_first()) is Err);
        assert(joined(keys, " or "@) == keys[0]);
    }
}

} // verus!
