//! Reply emitter, the deciding half: the exact text for every outcome, and
//! the composition that addresses the original author. Sending the text is
//! platform work and happens outside the library; a delivery failure is
//! logged there and swallowed, never raised back into the pipeline.

use vstd::prelude::*;

use crate::command::{Outcome, Reject, Verb};

verus! {

/// The user-facing reply for each outcome. Internal faults read as generic
/// fatal errors on purpose; user input errors each name their cause.
pub open spec fn spec_reply(o: Outcome) -> Seq<char> {
    match o {
        Outcome::RoleAdded => "role added!"@,
        Outcome::RoleRemoved => "role removed!"@,
        Outcome::Rejected(r) => match r {
            Reject::UnknownCommand => "this isn't a valid command."@,
            Reject::NoGuildContext => "this command is not valid in this context."@,
            Reject::MissingRoleArgument => "please provide a valid Role to assign."@,
            Reject::RoleNotPublic => "this role is not publically assignable."@,
            Reject::RoleLookupFailed => "a fatal error has occurred (assertion failed: role could not be retrieved from guild)."@,
            Reject::UnsupportedTargetSyntax => "syntax error. Usage: add <role>"@,
            Reject::MemberLookupFailed => "a fatal error has occurred (assertion failed: message author not retrievable from guild)."@,
            Reject::ApplyFailed(Verb::Add) => "unable to add role!"@,
            Reject::ApplyFailed(Verb::Remove) => "unable to remove role!"@,
        },
    }
}

/// The reply body for one outcome.
pub fn reply_text(o: &Outcome) -> (r: String)
    ensures
        r@ == spec_reply(*o),
{
    match o {
        Outcome::RoleAdded => String::from_str("role added!"),
        Outcome::RoleRemoved => String::from_str("role removed!"),
        Outcome::Rejected(rej) => match rej {
            Reject::UnknownCommand => String::from_str("this isn't a valid command."),
            Reject::NoGuildContext => String::from_str("this command is not valid in this context."),
            Reject::MissingRoleArgument => String::from_str("please provide a valid Role to assign."),
            Reject::RoleNotPublic => String::from_str("this role is not publically assignable."),
            Reject::RoleLookupFailed => String::from_str(
                "a fatal error has occurred (assertion failed: role could not be retrieved from guild).",
            ),
            Reject::UnsupportedTargetSyntax => String::from_str("syntax error. Usage: add <role>"),
            Reject::MemberLookupFailed => String::from_str(
                "a fatal error has occurred (assertion failed: message author not retrievable from guild).",
            ),
            Reject::ApplyFailed(Verb::Add) => String::from_str("unable to add role!"),
            Reject::ApplyFailed(Verb::Remove) => String::from_str("unable to remove role!"),
        },
    }
}

/// Every reply is directed at the original author: the author's mention,
/// a comma, and the reply body.
pub fn compose_reply(author_mention: &str, text: &str) -> (r: String)
    ensures
        r@ == author_mention@ + ", "@ + text@,
{
    let mut r = String::from_str(author_mention);
    r.append(", ");
    r.append(text);
    r
}

} // verus!
