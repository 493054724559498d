//! The launch-time argument record. Parsing a command line and probing the
//! filesystem are the surrounding program's work; this record carries what it
//! determined, as plain values.

use vstd::prelude::*;
use vstd::string::StringExecFns;

verus! {

/// What the surrounding program determined at launch: whether the graphical
/// interface was switched off, which configuration path was supplied (empty
/// when none was), and whether that path referred to an existing file when it
/// was probed.
pub struct ApplicationArguments {
    pub no_gui: bool,
    pub config_path: String,
    pub config_path_exists: bool,
}

impl ApplicationArguments {
    /// Records the parsed arguments and the result of the path probe.
    pub fn new(no_gui: bool, config_path: String, config_path_exists: bool) -> (r:
        ApplicationArguments)
        ensures
            r.no_gui == no_gui,
            r.config_path == config_path,
            r.config_path_exists == config_path_exists,
    {
        ApplicationArguments { no_gui, config_path, config_path_exists }
    }

    /// Whether the supplied configuration path was found to exist when it was
    /// probed at launch.
    pub fn has_valid_config_path(&self) -> (r: bool)
        ensures
            r == self.config_path_exists,
    {
        self.config_path_exists
    }
}

} // verus!
