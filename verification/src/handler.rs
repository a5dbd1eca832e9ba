//! The message event handler's deciding half: gate on the mention filter,
//! tokenize, dispatch. Everything after the returned decision needs the
//! guild, so it runs outside the library through the role-manager steps.

use vstd::prelude::*;

use crate::command::{dispatch, spec_dispatch, Dispatch};
use crate::mention::is_addressed;
use crate::registry::RoleRegistry;
use crate::tokenizer::{spec_tokenize, tokenize};

verus! {

/// Decides what one message event asks for. `None` when the message does not
/// mention the bot and is to be ignored without a reply; otherwise the
/// dispatcher's decision on the tokenized content.
pub fn handle_message(
    content: &str,
    mentioned: &Vec<u64>,
    bot_id: u64,
    in_guild: bool,
    registry: &RoleRegistry,
) -> (d: Option<Dispatch>)
    ensures
        d is Some <==> mentioned@.contains(bot_id),
        d matches Some(step) ==> step.route() == spec_dispatch(
            in_guild,
            spec_tokenize(content@),
            *registry,
        ),
{
    if !is_addressed(mentioned, bot_id) {
        return None;
    }
    let tokens = tokenize(content);
    Some(dispatch(in_guild, &tokens, registry))
}

} // verus!
