use vstd::prelude::*;

verus! {

/// The notification channel that chat messages go through.
pub const CHANNEL_NAME: &'static str = "CHAT_ROOM";

} // verus!
