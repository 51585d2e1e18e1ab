//! The voice-state table of a guild: which member sits in which voice
//! channel.

use std::collections::HashMap;
use vstd::prelude::*;

verus! {

broadcast use vstd::std_specs::hash::group_hash_axioms;

/// One guild's voice states, keyed by user. A member who is known to the
/// table but sits in no channel is recorded with `None`.
#[derive(Clone, Debug, PartialEq, Eq)]
pub struct VoiceStates {
    channels: HashMap<u64, Option<u64>>,
}

/// The voice channel that `states` records for `user`: none if the user is
/// not in the table, and none if the user's entry names no channel.
pub open spec fn voice_channel(states: Map<u64, Option<u64>>, user: u64) -> Option<u64> {
    if states.contains_key(user) {
        states[user]
    } else {
        None
    }
}

impl View for VoiceStates {
    type V = Map<u64, Option<u64>>;

    closed spec fn view(&self) -> Map<u64, Option<u64>> {
        self.channels@
    }
}

impl VoiceStates {
    /// A table without entries.
    pub fn new() -> (states: VoiceStates)
        ensures
            states@ == Map::<u64, Option<u64>>::empty(),
    {
        VoiceStates { channels: HashMap::new() }
    }

    /// Records `channel` as the voice state of `user`, in place of what the
    /// table held for that user.
    pub fn set(&mut self, user: u64, channel: Option<u64>)
        ensures
            final(self)@ == old(self)@.insert(user, channel),
    {
        self.channels.insert(user, channel);
    }

    /// The voice channel that `user` is in, if any.
    pub fn channel_of(&self, user: u64) -> (channel: Option<u64>)
        ensures
            channel == voice_channel(self@, user),
    {
        match self.channels.get(&user) {
            Some(entry) => *entry,
            None => None,
        }
    }
}

} // verus!
