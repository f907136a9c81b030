//! How an interpreter is configured and initialized.
use vstd::prelude::*;

verus! {

/// The number of signals for which a handler can be registered.
pub const NSIG: usize = 64;

/// Where the import machinery of a new interpreter comes from.
#[derive(Copy, Clone, PartialEq, Eq, Structural, Debug)]
pub enum InitParameter {
    Internal,
    External,
}

/// All settings of the virtual machine.
pub struct PySettings {
    /// -d command line switch
    pub debug: bool,
    /// -i
    pub inspect: bool,
    /// -i, with no script
    pub interactive: bool,
    /// -O optimization switch counter
    pub optimize: u8,
    /// -s
    pub no_user_site: bool,
    /// -S
    pub no_site: bool,
    /// -E
    pub ignore_environment: bool,
    /// verbosity level (-v switch)
    pub verbose: u8,
    /// -q
    pub quiet: bool,
    /// -B
    pub dont_write_bytecode: bool,
    /// -b
    pub bytes_warning: u64,
    /// -Xfoo[=bar]
    pub xopts: Vec<(String, Option<String>)>,
    /// -I
    pub isolated: bool,
    /// -Xdev
    pub dev_mode: bool,
    /// -Wfoo
    pub warnopts: Vec<String>,
    /// Environment PYTHONPATH and RUSTPYTHONPATH
    pub path_list: Vec<String>,
    /// sys.argv
    pub argv: Vec<String>,
    /// PYTHONHASHSEED=x
    pub hash_seed: Option<u32>,
}

impl PySettings {
    /// Every switch is off, every counter is zero, every list is empty and no
    /// hash seed is given.
    pub open spec fn is_default(&self) -> bool {
        &&& !self.debug && !self.inspect && !self.interactive
        &&& self.optimize == 0
        &&& !self.no_user_site && !self.no_site && !self.ignore_environment
        &&& self.verbose == 0
        &&& !self.quiet && !self.dont_write_bytecode
        &&& self.bytes_warning == 0
        &&& self.xopts@.len() == 0
        &&& !self.isolated && !self.dev_mode
        &&& self.warnopts@.len() == 0
        &&& self.path_list@.len() == 0
        &&& self.argv@.len() == 0
        &&& self.hash_seed is None
    }
}

/// Sensible default settings.
impl Default for PySettings {
    fn default() -> (settings: Self)
        ensures
            settings.is_default(),
    {
        PySettings {
            debug: false,
            inspect: false,
            interactive: false,
            optimize: 0,
            no_user_site: false,
            no_site: false,
            ignore_environment: false,
            verbose: 0,
            quiet: false,
            dont_write_bytecode: false,
            bytes_warning: 0,
            xopts: Vec::new(),
            isolated: false,
            dev_mode: false,
            warnopts: Vec::new(),
            path_list: Vec::new(),
            argv: Vec::new(),
            hash_seed: None,
        }
    }
}

} // verus!
