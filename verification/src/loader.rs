//! Validation of the resolved foreign symbols.
//!
//! The dynamic loader resolves five exports; the caller reports for each
//! whether it came back non-null, and construction may proceed only when
//! every one of them did. Partial resolution never leaks a usable handle.

use vstd::prelude::*;
use vstd::string::*;

use crate::error::Error;

verus! {

/// Batch decision over the five resolved symbols, each flag saying whether
/// that export resolved to a non-null address: all five must hold, or
/// construction fails with a loader error naming a null symbol.
pub fn validate_symbols(
    create_isolate: bool,
    tear_down_isolate: bool,
    load: bool,
    load_all: bool,
    version: bool,
) -> (r: Result<(), Error>)
    ensures
        r is Ok <==> (create_isolate && tear_down_isolate && load && load_all && version),
        r matches Err(e) ==> (e matches Error::Load(m) && m@
            == "a required symbol resolved to a null address"@),
{
    if create_isolate && tear_down_isolate && load && load_all && version {
        Ok(())
    } else {
        Err(Error::Load("a required symbol resolved to a null address".to_owned()))
    }
}

} // verus!
