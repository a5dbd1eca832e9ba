//! Command dispatcher: turns the token list of a message that addresses the
//! bot into either a terminal rejection or a role-lookup request.
//!
//! The last token of the message is the bot's own mention and is discarded;
//! the first remaining token is the verb (`add` or `remove`, case-sensitive),
//! the second is the role argument, and anything further is an attempt to
//! name a different target, which this bot refuses. A missing guild context
//! rejects the message before anything else is looked at.

use vstd::prelude::*;

use crate::registry::RoleRegistry;
use crate::text::{str_eq, strip_double_quotes, views_of, without_double_quotes};

verus! {

/// Which of the two role mutations a command asks for.
#[derive(Clone, Copy, Debug, PartialEq, Eq, Structural)]
pub enum Verb {
    Add,
    Remove,
}

/// Every way a command can be turned down.
///
/// `UnknownCommand`, `NoGuildContext`, `MissingRoleArgument`, `RoleNotPublic`
/// and `UnsupportedTargetSyntax` are user input errors; `RoleLookupFailed`
/// and `MemberLookupFailed` are internal consistency faults (the guild no
/// longer matches what the allow-list or the message promised); an
/// `ApplyFailed` records a platform-level refusal of the mutation itself,
/// and keeps the verb so the reply can name the operation that failed.
#[derive(Clone, Copy, Debug, PartialEq, Eq, Structural)]
pub enum Reject {
    UnknownCommand,
    NoGuildContext,
    MissingRoleArgument,
    RoleNotPublic,
    RoleLookupFailed,
    UnsupportedTargetSyntax,
    MemberLookupFailed,
    ApplyFailed(Verb),
}

impl Reject {
    /// Internal consistency faults are reported to the user as generic fatal
    /// errors but are kept apart from ordinary user input errors.
    pub fn is_internal_fault(&self) -> (r: bool)
        ensures
            r == (*self == Reject::RoleLookupFailed || *self == Reject::MemberLookupFailed),
    {
        match self {
            Reject::RoleLookupFailed => true,
            Reject::MemberLookupFailed => true,
            _ => false,
        }
    }
}

/// What one fully processed command ends in.
#[derive(Clone, Copy, Debug, PartialEq, Eq, Structural)]
pub enum Outcome {
    RoleAdded,
    RoleRemoved,
    Rejected(Reject),
}

/// The dispatcher's decision, at the specification level: refuse the message
/// outright, or look the stripped role name up in the guild.
pub enum Route {
    Refuse(Reject),
    Resolve { verb: Verb, role_name: Seq<char>, extra_args: bool },
}

/// The dispatcher's decision as executable data; `role_name` is the role
/// argument with every embedded double quote removed, in its original case,
/// ready for the exact-name lookup in the guild. `extra_args` remembers
/// whether tokens beyond the role argument were present, which the role
/// manager rejects once the role itself has resolved.
#[derive(Debug, PartialEq, Eq)]
pub enum Dispatch {
    Refuse(Reject),
    Resolve { verb: Verb, role_name: String, extra_args: bool },
}

impl Dispatch {
    pub open spec fn route(self) -> Route {
        match self {
            Dispatch::Refuse(r) => Route::Refuse(r),
            Dispatch::Resolve { verb, role_name, extra_args } => Route::Resolve {
                verb,
                role_name: role_name@,
                extra_args,
            },
        }
    }
}

/// What the dispatcher decides on a token list: the guild context is checked
/// first; then the mention token is discarded, the verb resolved by exact
/// match, the role argument unquoted and held against the allow-list.
pub open spec fn spec_dispatch(in_guild: bool, toks: Seq<Seq<char>>, reg: RoleRegistry) -> Route {
    if !in_guild {
        Route::Refuse(Reject::NoGuildContext)
    } else if toks.len() < 2 {
        Route::Refuse(Reject::UnknownCommand)
    } else if toks[0] != "add"@ && toks[0] != "remove"@ {
        Route::Refuse(Reject::UnknownCommand)
    } else if toks.len() == 2 {
        Route::Refuse(Reject::MissingRoleArgument)
    } else if !reg.allows(without_double_quotes(toks[1])) {
        Route::Refuse(Reject::RoleNotPublic)
    } else {
        Route::Resolve {
            verb: if toks[0] == "add"@ {
                Verb::Add
            } else {
                Verb::Remove
            },
            role_name: without_double_quotes(toks[1]),
            extra_args: toks.len() > 3,
        }
    }
}

/// Routes one tokenized message. `tokens` still carries the trailing
/// self-mention; `in_guild` says whether the message came from inside a
/// guild.
pub fn dispatch(in_guild: bool, tokens: &Vec<String>, registry: &RoleRegistry) -> (d: Dispatch)
    ensures
        d.route() == spec_dispatch(in_guild, views_of(tokens@), *registry),
{
    let ghost toks = views_of(tokens@);
    if !in_guild {
        return Dispatch::Refuse(Reject::NoGuildContext);
    }
    if tokens.len() < 2 {
        return Dispatch::Refuse(Reject::UnknownCommand);
    }
    proof {
        assert(toks[0] == tokens@[0]@);
        assert(toks[1] == tokens@[1]@);
    }
    let is_add = str_eq(tokens[0].as_str(), "add");
    let is_remove = if is_add {
        false
    } else {
        str_eq(tokens[0].as_str(), "remove")
    };
    if !is_add && !is_remove {
        return Dispatch::Refuse(Reject::UnknownCommand);
    }
    if tokens.len() == 2 {
        return Dispatch::Refuse(Reject::MissingRoleArgument);
    }
    let name = strip_double_quotes(tokens[1].as_str());
    if !registry.is_public(name.as_str()) {
        return Dispatch::Refuse(Reject::RoleNotPublic);
    }
    Dispatch::Resolve {
        verb: if is_add {
            Verb::Add
        } else {
            Verb::Remove
        },
        role_name: name,
        extra_args: tokens.len() > 3,
    }
}

} // verus!
