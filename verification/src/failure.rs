//! The panic for an exception that nothing handles.
use crate::machine::VirtualMachine;
use vstd::prelude::*;
use vstd::string::*;

verus! {

/// Whether the exception is printed before the panic: `var` is the value of the
/// variable RUST_BACKTRACE. A target without such variables always prints it.
pub open spec fn shows_backtrace(has_system: bool, var: Option<String>) -> bool {
    !has_system || (var is Some && var->0@ != "0"@)
}

/// What the message of the panic says.
pub open spec fn failure_message(msg: Seq<char>, show_backtrace: bool) -> Seq<char> {
    msg + "; "@ + if show_backtrace {
        "exception backtrace above"@
    } else {
        "run with RUST_BACKTRACE=1 to see Python backtrace"@
    }
}

impl VirtualMachine {
    /// How the host panics for an exception: whether it prints the exception first,
    /// and the message. `var` is the value of the variable RUST_BACKTRACE.
    pub fn _py_panic_failed(&self, msg: &str, var: &Option<String>) -> (failure: (bool, String))
        ensures
            failure.0 == shows_backtrace(self.state.has_system, *var),
            failure.1@ == failure_message(msg@, failure.0),
    {
        let show_backtrace = !self.state.has_system || match var {
            Some(value) => *value != "0".to_owned(),
            None => false,
        };
        let after = if show_backtrace {
            "exception backtrace above"
        } else {
            "run with RUST_BACKTRACE=1 to see Python backtrace"
        };
        (show_backtrace, msg.to_owned().concat("; ").concat(after))
    }
}

} // verus!
