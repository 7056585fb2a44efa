//! The settings a game is started with.

use vstd::prelude::*;

verus! {

/// Who plays, and at what window size.
#[derive(Debug)]
pub struct Config {
    pub username: String,
    pub resolution: (u32, u32),
}

impl Config {
    /// Settings for `username` at the given window size.
    pub fn new(username: &str, resolution: (u32, u32)) -> (config: Self)
        ensures
            config.username@ == username@,
            config.resolution == resolution,
    {
        Config { username: username.to_string(), resolution }
    }
}

/// A launcher with its settings.
#[derive(Debug)]
pub struct Launcher {
    pub config: Config,
}

impl Launcher {
    /// A launcher that starts the game with `config`.
    pub fn new(config: Config) -> (launcher: Self)
        ensures
            launcher.config == config,
    {
        Launcher { config }
    }
}

} // verus!
