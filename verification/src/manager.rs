//! Role manager: the state machine that runs a dispatched command to its
//! outcome. The guild lookups and the mutation itself are platform work;
//! each step here takes their plain result and decides what happens next,
//! so every decision is verified for every answer the platform can give.

use vstd::prelude::*;

use crate::command::{Outcome, Reject, Verb};

verus! {

/// State after the role-resolution step.
#[derive(Clone, Copy, Debug, PartialEq, Eq, Structural)]
pub enum RoleResolved {
    Refuse(Reject),
    ResolveMember { verb: Verb, role_id: u64 },
}

/// State after the member-resolution step.
#[derive(Clone, Copy, Debug, PartialEq, Eq, Structural)]
pub enum MemberResolved {
    Refuse(Reject),
    Apply { verb: Verb, role_id: u64 },
}

/// The role passed the allow-list, so a failed guild lookup is an internal
/// fault; with the role in hand, a leftover token (an attempted target) is
/// refused before the member is even looked up.
pub open spec fn spec_resolve_role(verb: Verb, extra_args: bool, found: Option<u64>) -> RoleResolved {
    match found {
        Option::None => RoleResolved::Refuse(Reject::RoleLookupFailed),
        Option::Some(id) => if extra_args {
            RoleResolved::Refuse(Reject::UnsupportedTargetSyntax)
        } else {
            RoleResolved::ResolveMember { verb, role_id: id }
        },
    }
}

/// Takes the result of the guild's exact-name role lookup and either refuses
/// or asks for the acting member next.
pub fn resolve_role(verb: Verb, extra_args: bool, found: Option<u64>) -> (r: RoleResolved)
    ensures
        r == spec_resolve_role(verb, extra_args, found),
{
    match found {
        Option::None => RoleResolved::Refuse(Reject::RoleLookupFailed),
        Option::Some(id) => {
            if extra_args {
                RoleResolved::Refuse(Reject::UnsupportedTargetSyntax)
            } else {
                RoleResolved::ResolveMember { verb, role_id: id }
            }
        },
    }
}

/// The author wrote from inside the guild, so not finding them as a member
/// is an internal fault; otherwise the mutation may go ahead.
pub open spec fn spec_resolve_member(verb: Verb, role_id: u64, member_found: bool) -> MemberResolved {
    if member_found {
        MemberResolved::Apply { verb, role_id }
    } else {
        MemberResolved::Refuse(Reject::MemberLookupFailed)
    }
}

/// Takes whether the message author was found among the guild's members and
/// either refuses or hands the mutation request on.
pub fn resolve_member(verb: Verb, role_id: u64, member_found: bool) -> (r: MemberResolved)
    ensures
        r == spec_resolve_member(verb, role_id, member_found),
{
    if member_found {
        MemberResolved::Apply { verb, role_id }
    } else {
        MemberResolved::Refuse(Reject::MemberLookupFailed)
    }
}

/// Success reports the mutation that was made; a platform refusal becomes an
/// ordinary outcome that names the operation, never anything worse.
pub open spec fn spec_apply(verb: Verb, ok: bool) -> Outcome {
    if ok {
        match verb {
            Verb::Add => Outcome::RoleAdded,
            Verb::Remove => Outcome::RoleRemoved,
        }
    } else {
        Outcome::Rejected(Reject::ApplyFailed(verb))
    }
}

/// Takes whether the platform accepted the grant or revocation and produces
/// the final outcome.
pub fn apply_outcome(verb: Verb, ok: bool) -> (o: Outcome)
    ensures
        o == spec_apply(verb, ok),
{
    if ok {
        match verb {
            Verb::Add => Outcome::RoleAdded,
            Verb::Remove => Outcome::RoleRemoved,
        }
    } else {
        Outcome::Rejected(Reject::ApplyFailed(verb))
    }
}

} // verus!
