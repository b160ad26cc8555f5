//! Who may write the settings file.

use vstd::prelude::*;

verus! {

/// The process that owns the menu's socket saves settings, and so does a
/// foreground session when no menu runs; a donor whose handoff failed must not
/// overwrite what the live menu just saved.
pub fn should_persist_config(ipc_owner: bool, menu_socket_absent: bool) -> (r: bool)
    ensures
        r == (ipc_owner || menu_socket_absent),
{
    ipc_owner || menu_socket_absent
}

} // verus!
