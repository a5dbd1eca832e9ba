//! Mention filter: decides whether a message addresses the bot at all.

use vstd::prelude::*;

verus! {

/// A message is a candidate command if and only if the bot's own user id
/// appears among the ids the message mentions. The position of the mention
/// inside the text does not matter here.
pub fn is_addressed(mentioned: &Vec<u64>, bot_id: u64) -> (r: bool)
    ensures
        r == mentioned@.contains(bot_id),
{
    let n: usize = mentioned.len();
    let mut i: usize = 0;
    while i < n
        invariant
            i <= n,
            n == mentioned@.len(),
            forall|k: int| 0 <= k < i ==> mentioned@[k] != bot_id,
        decreases n - i,
    {
        if mentioned[i] == bot_id {
            return true;
        }
        i += 1;
    }
    false
}

} // verus!
