//! Authorization decisions over verified-credential facts.
//!
//! Whether the caller owns a credential or holds a moderator credential is a
//! question for the credential store at the edge; the decision over those
//! two facts is computed here. Reading, creating threads, posting and
//! reacting are open to every authenticated user; linking a credential asks
//! for ownership or moderator standing; moderation asks for moderator
//! standing.

use vstd::prelude::*;

verus! {

/// Permission types for authorization.
#[derive(Clone, Copy, Debug, PartialEq, Eq, Structural)]
pub enum Permission {
    /// Read a thread.
    ReadThread,
    /// Create a thread.
    CreateThread,
    /// Post a message.
    PostMessage,
    /// React to a message.
    ReactToMessage,
    /// Link a credential to a thread.
    LinkCredential,
    /// Moderate content.
    ModerateContent,
}

/// The permission decision as a mathematical function of the permission and
/// the two credential facts.
pub open spec fn spec_permission_granted(
    permission: Permission,
    is_credential_owner: bool,
    is_moderator: bool,
) -> bool {
    match permission {
        Permission::ReadThread => true,
        Permission::CreateThread => true,
        Permission::PostMessage => true,
        Permission::ReactToMessage => true,
        Permission::LinkCredential => is_credential_owner || is_moderator,
        Permission::ModerateContent => is_moderator,
    }
}

/// Decides whether an authenticated caller holds the permission, given
/// whether the caller owns the credential at stake and whether the caller
/// holds a moderator credential.
pub fn check_permission(permission: Permission, is_credential_owner: bool, is_moderator: bool)
    -> (r: bool)
    ensures
        r == spec_permission_granted(permission, is_credential_owner, is_moderator),
{
    match permission {
        Permission::ReadThread => true,
        Permission::CreateThread => true,
        Permission::PostMessage => true,
        Permission::ReactToMessage => true,
        Permission::LinkCredential => is_credential_owner || is_moderator,
        Permission::ModerateContent => is_moderator,
    }
}

} // verus!
