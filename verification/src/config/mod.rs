use vstd::prelude::*;

verus! {

/// The program's settings.
#[derive(Debug, Clone, Copy, PartialEq, Eq, Structural)]
pub struct Config {
    pub debug: bool,
}

/// The colour theme of the user interface.
#[derive(Debug, Clone, Copy, Eq, PartialEq, Structural)]
pub enum Theme {
    Dark,
    Light,
}

/// Whether a panel closes by itself, and after how many seconds.
#[derive(Debug, Clone, Copy, Eq, PartialEq, Structural)]
pub enum AutoRetract {
    Close,
    Open(u64),
}

impl Config {
    /// The settings to use, given those read from the settings file (`None`
    /// when the file could not be read or parsed), and whether the defaults
    /// must be written to the file: the settings read when there are some,
    /// else the defaults, to be written.
    pub fn init(loaded: Option<Config>) -> (r: (Config, bool))
        ensures
            loaded matches Some(c) ==> r == (c, false),
            loaded is None ==> r == ((Config { debug: false }), true),
    {
        match loaded {
            Some(config) => (config, false),
            None => (Self::default(), true),
        }
    }
}

impl Default for Config {
    fn default() -> (r: Self)
        ensures
            r == (Config { debug: false }),
    {
        Self { debug: false }
    }
}

impl Default for AutoRetract {
    fn default() -> (r: Self)
        ensures
            r == AutoRetract::Open(30),
    {
        Self::Open(30)
    }
}

} // verus!
