use vstd::prelude::*;

use crate::config::Config;

verus! {

/// What the command line gives: settings to store, and whether to print
/// where they are stored.
pub struct Args {
    /// Github access token
    pub token: Option<String>,
    /// Github user name
    pub user_name: Option<String>,
    /// Print the config file path
    pub file_path: bool,
}

/// The text of an optional setting; empty when it is absent.
pub open spec fn setting_or_empty(s: Option<String>) -> Seq<char> {
    match s {
        Some(v) => v@,
        None => Seq::empty(),
    }
}

impl Args {
    /// The settings given on the command line, empty where one is absent.
    pub fn new_config(self) -> (r: Config)
        ensures
            r.github_access_token@ == setting_or_empty(self.token),
            r.user_name@ == setting_or_empty(self.user_name),
    {
        let github_access_token = match self.token {
            Some(t) => t,
            None => String::new(),
        };
        let user_name = match self.user_name {
            Some(u) => u,
            None => String::new(),
        };
        Config { github_access_token, user_name }
    }
}

} // verus!
