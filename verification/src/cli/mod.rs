//! What the command line decides: how much is logged, whether output is
//! coloured, and what each command does about what it finds.

pub mod commands;

use vstd::prelude::*;

verus! {

/// When output is coloured.
#[derive(Debug, Clone, Copy, PartialEq, Eq, Structural)]
pub enum ColorChoice {
    /// Always.
    Always,
    /// Where the terminal supports it.
    Auto,
    /// Never.
    Never,
}

impl Default for ColorChoice {
    fn default() -> (choice: Self)
        ensures
            choice == ColorChoice::Auto,
    {
        ColorChoice::Auto
    }
}

impl ColorChoice {
    /// Whether colours are switched on or off whatever the terminal supports;
    /// `None` where that is left to the terminal.
    pub fn forced(self) -> (forced: Option<bool>)
        ensures
            forced == match self {
                ColorChoice::Always => Some(true),
                ColorChoice::Never => Some(false),
                ColorChoice::Auto => None::<bool>,
            },
    {
        match self {
            ColorChoice::Always => Some(true),
            ColorChoice::Never => Some(false),
            ColorChoice::Auto => None,
        }
    }
}

/// The level from which messages are logged: errors only where quiet is asked
/// for, everything down to debugging where verbose is, and information
/// otherwise. Quiet wins over verbose.
pub fn log_filter(verbose: bool, quiet: bool) -> (filter: &'static str)
    ensures
        filter@ == if quiet {
            "error"@
        } else if verbose {
            "debug"@
        } else {
            "info"@
        },
{
    if quiet {
        "error"
    } else if verbose {
        "debug"
    } else {
        "info"
    }
}

} // verus!
