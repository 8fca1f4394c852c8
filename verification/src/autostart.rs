//! Autostart support. Installing a launch-on-login hook is platform work
//! the host performs: it writes a startup shortcut or a desktop entry at a
//! per-user location. The library contributes the portable parts — the
//! desktop entry's content — and the fallback for platforms without an
//! autostart mechanism, where enabling or disabling always fails.

use vstd::prelude::*;

verus! {

/// Asks for the application to start with the system. The portable core has
/// no autostart mechanism of its own, so this always fails; a host with a
/// platform hook installs it itself.
pub fn enable_autostart() -> (r: Result<(), String>)
    ensures
        r matches Err(m) && m@ == "autostart is not supported on this platform"@,
{
    Err("autostart is not supported on this platform".to_owned())
}

/// Withdraws the request for the application to start with the system. As
/// with `enable_autostart`, the portable core always fails here.
pub fn disable_autostart() -> (r: Result<(), String>)
    ensures
        r matches Err(m) && m@ == "autostart is not supported on this platform"@,
{
    Err("autostart is not supported on this platform".to_owned())
}

/// The content of the desktop entry a host installs to launch the timer on
/// login, given the path of the running executable.
pub fn autostart_entry_content(exe_path: &str) -> (r: String)
    ensures
        r@ == "[Desktop Entry]\nType=Application\nName=Sleep Timer\nExec=\""@ + exe_path@
            + "\"\n"@,
{
    let mut s = "[Desktop Entry]\nType=Application\nName=Sleep Timer\nExec=\"".to_owned();
    s.append(exe_path);
    s.append("\"\n");
    s
}

} // verus!
