//! The command line of the program.

use vstd::prelude::*;
use vstd::string::*;

verus! {

/// The configuration file that is read where none is named.
pub const DEFAULT_CONFIG: &'static str = "./Clyde.toml";

/// The command line.
#[derive(Clone, Debug)]
pub struct Cli {
    /// The configuration file.
    pub config: String,
}

impl Cli {
    /// The command line that names `config`, or the default configuration
    /// file where it names none.
    pub fn new(config: Option<String>) -> (cli: Self)
        ensures
            cli.config@ == match config {
                Some(path) => path@,
                None => DEFAULT_CONFIG@,
            },
    {
        match config {
            Some(path) => Self { config: path },
            None => Self { config: String::from_str(DEFAULT_CONFIG) },
        }
    }
}

} // verus!
