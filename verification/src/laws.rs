//! The guarantees the pipeline gives as a whole, each stated over the
//! specification functions of the dispatcher and the role manager and proved
//! once for all inputs.

use vstd::prelude::*;

use crate::command::{spec_dispatch, Outcome, Reject, Route, Verb};
use crate::manager::{
    spec_apply, spec_resolve_member, spec_resolve_role, MemberResolved, RoleResolved,
};
use crate::registry::RoleRegistry;
use crate::text::without_double_quotes;

verus! {

/// Law: inside a guild, `add <name>` followed only by the mention, with the
/// unquoted name on the allow-list, runs the whole machine to `RoleAdded`
/// when the guild and the platform answer every step — and the grant that is
/// requested carries exactly the role id the guild lookup returned, so the
/// member's roles gain exactly that role.
pub proof fn lemma_allowed_add_is_granted(toks: Seq<Seq<char>>, reg: RoleRegistry, role_id: u64)
    requires
        toks.len() == 3,
        toks[0] == "add"@,
        reg.allows(without_double_quotes(toks[1])),
    ensures
        spec_dispatch(true, toks, reg) == (Route::Resolve {
            verb: Verb::Add,
            role_name: without_double_quotes(toks[1]),
            extra_args: false,
        }),
        spec_resolve_role(Verb::Add, false, Some(role_id)) == (RoleResolved::ResolveMember {
            verb: Verb::Add,
            role_id,
        }),
        spec_resolve_member(Verb::Add, role_id, true) == (MemberResolved::Apply {
            verb: Verb::Add,
            role_id,
        }),
        spec_apply(Verb::Add, true) == Outcome::RoleAdded,
{
}

/// Law: a role name whose lower-cased, unquoted form is not on the allow-list
/// is refused as not public, under either verb; the machine stops there, so
/// no lookup and no mutation is ever requested for it.
pub proof fn lemma_unlisted_role_refused(toks: Seq<Seq<char>>, reg: RoleRegistry)
    requires
        toks.len() >= 3,
        toks[0] == "add"@ || toks[0] == "remove"@,
        !reg.allows(without_double_quotes(toks[1])),
    ensures
        spec_dispatch(true, toks, reg) == Route::Refuse(Reject::RoleNotPublic),
{
}

/// Law: tokens left over after the role argument are an attempted target,
/// which this bot does not support: the dispatcher records them, and once the
/// role itself has resolved the machine refuses the command as a syntax
/// error, under either verb and whatever role id the lookup returned.
pub proof fn lemma_trailing_tokens_refused(
    toks: Seq<Seq<char>>,
    reg: RoleRegistry,
    verb: Verb,
    role_id: u64,
)
    requires
        toks.len() >= 4,
        toks[0] == "add"@ || toks[0] == "remove"@,
        reg.allows(without_double_quotes(toks[1])),
    ensures
        spec_dispatch(true, toks, reg) matches Route::Resolve { extra_args, .. } && extra_args,
        spec_resolve_role(verb, true, Some(role_id)) == RoleResolved::Refuse(
            Reject::UnsupportedTargetSyntax,
        ),
{
}

/// Law: with no verb left once the mention is discarded (the message is at
/// most the mention itself), the command is unknown, whatever the registry
/// holds.
pub proof fn lemma_no_verb_is_unknown(toks: Seq<Seq<char>>, reg: RoleRegistry)
    requires
        toks.len() < 2,
    ensures
        spec_dispatch(true, toks, reg) == Route::Refuse(Reject::UnknownCommand),
{
}

/// Law: outside any guild context every message is refused for lack of
/// context, whatever its verb, its arguments and the registry.
pub proof fn lemma_no_guild_refused(toks: Seq<Seq<char>>, reg: RoleRegistry)
    ensures
        spec_dispatch(false, toks, reg) == Route::Refuse(Reject::NoGuildContext),
{
}

/// Law: a repeated grant cannot derail the pipeline. Whatever the platform
/// answers to a grant — also for a role the member already holds — the
/// outcome is `RoleAdded` or `Rejected(ApplyFailed(Add))`; there is no third
/// possibility, so a second `add` in a row ends in a normal reply, never in
/// a failure that escapes the pipeline.
pub proof fn lemma_repeated_grant_safe(ok: bool)
    ensures
        spec_apply(Verb::Add, ok) == Outcome::RoleAdded || spec_apply(Verb::Add, ok)
            == Outcome::Rejected(Reject::ApplyFailed(Verb::Add)),
{
}

} // verus!
