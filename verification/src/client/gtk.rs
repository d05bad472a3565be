//! What the desktop shell needs from the client library.
use vstd::prelude::*;

verus! {

/// The application id the desktop shell registers under.
pub fn app_id() -> (r: &'static str)
    ensures
        r@ == "io.sora.kaigi.linux"@,
{
    "io.sora.kaigi.linux"
}

} // verus!
