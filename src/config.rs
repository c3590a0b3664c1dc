//! Settings of the login manager.
use vstd::prelude::*;

verus! {

/// Settings read at startup.
#[derive(Debug)]
pub struct Config {
    /// Program started as the user's shell.
    pub default_shell: String,
    /// Lowest user id that may log in.
    pub min_uid: u32,
    /// Virtual console to activate and record the session on.
    pub tty: u8,
    /// Number of login attempts before giving up.
    pub max_attempts: u8,
}

impl Default for Config {
    fn default() -> (r: Config)
        ensures
            r.default_shell@ == "/bin/bash"@,
            r.min_uid == 1000,
            r.tty == 2,
            r.max_attempts == 3,
    {
        Config { default_shell: "/bin/bash".to_owned(), min_uid: 1000, tty: 2, max_attempts: 3 }
    }
}

} // verus!
