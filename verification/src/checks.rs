//! Who may use the commands that change or show the bridges of a server.

use vstd::prelude::*;

verus! {

/// Whether the author of a command is taken to be the server's owner, whom
/// the guarded commands are for. No owner lookup is in force, so nobody is.
pub fn is_guild_owner() -> (allowed: bool)
    ensures
        !allowed,
{
    false
}

} // verus!
