//! The server for remote windows.

use vstd::prelude::*;

verus! {

/// Where the server listens: in the mode that was asked for, or on this machine
/// alone, `localhost`, where none was asked for or the name of it is unknown.
pub fn bind_mode_or<M>(parsed: Option<M>, localhost: M) -> (r: M)
    ensures
        r == (match parsed {
            Some(mode) => mode,
            None => localhost,
        }),
{
    match parsed {
        Some(mode) => mode,
        None => localhost,
    }
}

} // verus!
