//! The configuration loader's policy: what a run is configured with, given
//! what became of its parameter file.
use vstd::prelude::*;

verus! {

/// What became of the parameter file.
pub enum FileOutcome<C> {
    /// There is no file.
    Absent,
    /// The file parsed into a configuration.
    Parsed(C),
    /// The file is there but does not parse.
    Malformed,
}

#[derive(Clone, Copy, Debug, PartialEq, Eq, Structural)]
pub enum ConfigError {
    /// There is no file and the run has no defaults.
    Missing,
    /// The file does not parse; nothing is merged with defaults.
    Malformed,
}

/// The configuration for a run: the parsed file exactly as it was read; the
/// defaults, where there is no file and the run has them; an error otherwise.
pub fn resolve_configuration<C>(file: FileOutcome<C>, defaults: Option<C>) -> (r: Result<
    C,
    ConfigError,
>)
    ensures
        file matches FileOutcome::Parsed(c) ==> r == Ok::<C, ConfigError>(c),
        file is Malformed ==> r == Err::<C, ConfigError>(ConfigError::Malformed),
        file is Absent ==> match defaults {
            Some(d) => r == Ok::<C, ConfigError>(d),
            None => r == Err::<C, ConfigError>(ConfigError::Missing),
        },
{
    match file {
        FileOutcome::Parsed(c) => Ok(c),
        FileOutcome::Malformed => Err(ConfigError::Malformed),
        FileOutcome::Absent => match defaults {
            Some(d) => Ok(d),
            None => Err(ConfigError::Missing),
        },
    }
}

} // verus!
