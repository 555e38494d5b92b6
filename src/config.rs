use vstd::prelude::*;

verus! {

/// What the application needs to talk to the issue service: an access token
/// and the name of the user whose repositories are listed.
pub struct Config {
    pub github_access_token: String,
    pub user_name: String,
}

/// A setting that is still empty once the stored and the given ones are merged.
#[derive(PartialEq, Eq, Structural, Clone, Copy, Debug)]
pub enum ConfigError {
    MissingAccessToken,
    MissingUserName,
}

/// `given` where it is not empty, else `stored`.
pub open spec fn merged_setting(stored: Seq<char>, given: Seq<char>) -> Seq<char> {
    if given.len() == 0 {
        stored
    } else {
        given
    }
}

impl Config {
    /// Takes into `config` each setting of `new_config` that is not empty.
    pub fn load_new_config(config: &mut Config, new_config: Config)
        ensures
            final(config).github_access_token@ == merged_setting(
                old(config).github_access_token@,
                new_config.github_access_token@,
            ),
            final(config).user_name@ == merged_setting(
                old(config).user_name@,
                new_config.user_name@,
            ),
    {
        let Config { github_access_token, user_name } = new_config;
        if !github_access_token.as_str().is_empty() {
            config.github_access_token = github_access_token;
        }
        if !user_name.as_str().is_empty() {
            config.user_name = user_name;
        }
    }

    /// Says which setting is missing, the access token first, or `Ok` when
    /// both are set.
    pub fn check_empty_values(config: &Config) -> (r: Result<(), ConfigError>)
        ensures
            config.github_access_token@.len() == 0 ==> r == Err::<(), ConfigError>(
                ConfigError::MissingAccessToken,
            ),
            config.github_access_token@.len() > 0 && config.user_name@.len() == 0 ==> r == Err::<
                (),
                ConfigError,
            >(ConfigError::MissingUserName),
            config.github_access_token@.len() > 0 && config.user_name@.len() > 0 ==> r is Ok,
    {
        if config.github_access_token.as_str().is_empty() {
            return Err(ConfigError::MissingAccessToken);
        }
        if config.user_name.as_str().is_empty() {
            return Err(ConfigError::MissingUserName);
        }
        Ok(())
    }
}

impl Default for Config {
    fn default() -> (r: Self)
        ensures
            r.github_access_token@ == Seq::<char>::empty(),
            r.user_name@ == Seq::<char>::empty(),
    {
        Config { github_access_token: String::new(), user_name: String::new() }
    }
}

} // verus!
