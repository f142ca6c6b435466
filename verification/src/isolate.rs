//! Decisions of the isolate lifecycle.
//!
//! The embedded runtime's isolate is created once per handle and torn down
//! once; the foreign calls return plain codes, and the rules over those
//! codes live here: creation failure is fatal and carries the code, while
//! teardown failure is only a warning, because teardown runs during
//! resource release where no error channel exists.

use vstd::prelude::*;
use vstd::string::*;

use crate::error::Error;

verus! {

/// Decision on the isolate-creation return code: zero is success; anything
/// else aborts construction with the runtime error carrying that code.
pub fn check_isolate_creation(code: i32) -> (r: Result<(), Error>)
    ensures
        code == 0 <==> r is Ok,
        code != 0 ==> r == Err::<(), Error>(Error::GraalVM(code)),
{
    if code == 0 {
        Ok(())
    } else {
        Err(Error::GraalVM(code))
    }
}

/// Decision on the teardown return code: zero passes silently; anything
/// else yields a warning for the caller to log, never an error.
pub fn teardown_outcome(code: i32) -> (warning: Option<String>)
    ensures
        code == 0 <==> warning is None,
        warning matches Some(w) ==> w@
            == "Warning: Failed to tear down yamlstar's GraalVM isolate"@,
{
    if code == 0 {
        None
    } else {
        Some("Warning: Failed to tear down yamlstar's GraalVM isolate".to_owned())
    }
}

} // verus!
