//! OS auto-start registration. Registering the application with the
//! operating system's login sequence is inherently platform work; on
//! platforms without a supported registrar these portable entry points
//! refuse the request, and a platform driver may offer its own registrar.

use vstd::prelude::*;
use vstd::string::StringExecFns;

verus! {

/// Asks the OS to launch the application at login. Without a platform
/// registrar there is nothing to register with: the request is refused.
pub fn enable_auto_start() -> (r: Result<(), String>)
    ensures
        r is Err,
        r->Err_0@ == "Auto-start not supported on this platform"@,
{
    Err(String::from_str("Auto-start not supported on this platform"))
}

/// Removes the application from the OS login sequence. Without a platform
/// registrar the request is refused.
pub fn disable_auto_start() -> (r: Result<(), String>)
    ensures
        r is Err,
        r->Err_0@ == "Auto-start not supported on this platform"@,
{
    Err(String::from_str("Auto-start not supported on this platform"))
}

/// Whether the application is registered to start at login: never, without
/// a platform registrar.
pub fn is_auto_start_enabled() -> (r: bool)
    ensures
        !r,
{
    false
}

} // verus!
