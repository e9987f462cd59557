//! Whether the configuration may be written.

use crate::config::store::Config;
#[allow(unused_imports)]
use crate::config::store::ConfigModel;
use vstd::prelude::*;

verus! {

/// Where the configuration is written to.
#[derive(Debug)]
pub enum ConfigPersistence<F> {
    /// The user's file, which was read without fault.
    UserFile(F),
    /// Nowhere, since the user's file could not be read, for this reason.
    ReadOnly(String),
}

/// `start` is what the program starts with after `loaded` came of reading the
/// user's file.
pub open spec fn started_with<F>(
    loaded: Result<(Config, F), String>,
    start: (Config, ConfigPersistence<F>),
) -> bool {
    match loaded {
        Ok((config, file)) => start == (config, ConfigPersistence::UserFile(file)),
        Err(reason) => start.0@ == ConfigModel::ephemeral() && start.1
            == ConfigPersistence::<F>::ReadOnly(reason),
    }
}

/// The configuration that the program starts with, and where it is written to.
/// A file that could not be read must not be overwritten, so the program then
/// starts with an empty configuration that is never written.
pub fn start_with<F>(loaded: Result<(Config, F), String>) -> (start: (Config, ConfigPersistence<F>))
    ensures
        started_with(loaded, start),
{
    match loaded {
        Ok((config, file)) => (config, ConfigPersistence::UserFile(file)),
        Err(reason) => (Config::ephemeral(), ConfigPersistence::ReadOnly(reason)),
    }
}

impl<F> ConfigPersistence<F> {
    /// The configuration is to be written.
    pub open spec fn write_due(self, changed: bool) -> bool {
        self is UserFile && changed
    }

    /// Whether the configuration is to be written: not without a change, and
    /// never after the user's file could not be read.
    pub fn writes(&self, changed: bool) -> (writes: bool)
        ensures
            writes == self.write_due(changed),
    {
        match self {
            ConfigPersistence::UserFile(_) => changed,
            ConfigPersistence::ReadOnly(_) => false,
        }
    }
}

/// After the user's file could not be read, no change is ever written.
pub proof fn an_unread_file_is_never_written<F>(
    loaded: Result<(Config, F), String>,
    start: (Config, ConfigPersistence<F>),
    changed: bool,
)
    requires
        started_with(loaded, start),
        loaded is Err,
    ensures
        !start.1.write_due(changed),
{
}

} // verus!
