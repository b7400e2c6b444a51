//! The authorization filter: which messages may trigger a download, and which
//! servers the listener stays in.

use vstd::prelude::*;

verus! {

/// A message as the gateway delivers it.
#[derive(Clone, Debug, PartialEq, Eq)]
pub struct IncomingMessage {
    /// The server the message was sent in; a direct message has none.
    pub guild_id: Option<u64>,
    pub channel_id: u64,
    pub author_id: u64,
    pub content: String,
    /// Whether the author is an automated agent.
    pub author_is_bot: bool,
}

/// An [`IncomingMessage`] over plain values.
pub struct MessageView {
    pub guild_id: Option<u64>,
    pub channel_id: u64,
    pub author_id: u64,
    pub content: Seq<char>,
    pub author_is_bot: bool,
}

impl View for IncomingMessage {
    type V = MessageView;

    open spec fn view(&self) -> MessageView {
        MessageView {
            guild_id: self.guild_id,
            channel_id: self.channel_id,
            author_id: self.author_id,
            content: self.content@,
            author_is_bot: self.author_is_bot,
        }
    }
}

/// Which origins may trigger downloads. A missing list of servers allows every
/// server, a missing channel allows every channel.
#[derive(Clone, Debug, PartialEq, Eq)]
pub struct AuthorizationPolicy {
    pub allowed_guilds: Option<Vec<u64>>,
    pub allowed_channel: Option<u64>,
}

/// An [`AuthorizationPolicy`] over plain values.
pub struct PolicyView {
    pub allowed_guilds: Option<Seq<u64>>,
    pub allowed_channel: Option<u64>,
}

/// An optional list of servers over plain values.
pub open spec fn ids_view(ids: Option<Vec<u64>>) -> Option<Seq<u64>> {
    match ids {
        Some(ids) => Some(ids@),
        None => None,
    }
}

impl View for AuthorizationPolicy {
    type V = PolicyView;

    open spec fn view(&self) -> PolicyView {
        PolicyView {
            allowed_guilds: ids_view(self.allowed_guilds),
            allowed_channel: self.allowed_channel,
        }
    }
}

/// The test for a server that is not among `ids`.
pub open spec fn unlisted(ids: Seq<u64>) -> spec_fn(u64) -> bool {
    |id: u64| !ids.contains(id)
}

impl PolicyView {
    /// The server `id` is on the list, or there is no list.
    pub open spec fn allows_guild(self, id: u64) -> bool {
        match self.allowed_guilds {
            Some(ids) => ids.contains(id),
            None => true,
        }
    }

    /// The channel `id` is the allowed one, or none is set.
    pub open spec fn allows_channel(self, id: u64) -> bool {
        match self.allowed_channel {
            Some(allowed) => id == allowed,
            None => true,
        }
    }

    /// The message may trigger a download: no automated agent wrote it, its server
    /// (if it has one) is allowed, and so is its channel.
    pub open spec fn authorizes(self, msg: MessageView) -> bool {
        &&& !msg.author_is_bot
        &&& match msg.guild_id {
            Some(id) => self.allows_guild(id),
            None => true,
        }
        &&& self.allows_channel(msg.channel_id)
    }

    /// The servers to leave, out of those joined: with a list, the ones that are not
    /// on it, in the order in which they were joined; without a list, none.
    pub open spec fn departures(self, joined: Seq<u64>) -> Seq<u64> {
        match self.allowed_guilds {
            Some(ids) => joined.filter(unlisted(ids)),
            None => Seq::empty(),
        }
    }
}

/// Whether `id` occurs in `ids`.
fn contains_id(ids: &Vec<u64>, id: u64) -> (found: bool)
    ensures
        found == ids@.contains(id),
{
    let mut i: usize = 0;
    while i < ids.len()
        invariant
            i <= ids.len(),
            forall|j: int| 0 <= j < i ==> ids@[j] != id,
        decreases ids.len() - i,
    {
        if ids[i] == id {
            return true;
        }
        i += 1;
    }
    false
}

impl AuthorizationPolicy {
    /// Whether the server `guild_id` may trigger downloads.
    pub fn is_allowed_guild(&self, guild_id: u64) -> (allowed: bool)
        ensures
            allowed == self@.allows_guild(guild_id),
    {
        match &self.allowed_guilds {
            Some(ids) => contains_id(ids, guild_id),
            None => true,
        }
    }

    /// The authorization filter.
    pub fn authorizes(&self, msg: &IncomingMessage) -> (allowed: bool)
        ensures
            allowed == self@.authorizes(msg@),
    {
        if msg.author_is_bot {
            return false;
        }
        if let Some(guild_id) = msg.guild_id {
            if !self.is_allowed_guild(guild_id) {
                return false;
            }
        }
        if let Some(allowed_channel) = self.allowed_channel {
            if msg.channel_id != allowed_channel {
                return false;
            }
        }
        true
    }

    /// The servers to leave once the session is ready, out of those in `joined`.
    pub fn guilds_to_leave(&self, joined: &Vec<u64>) -> (leave: Vec<u64>)
        ensures
            leave@ == self@.departures(joined@),
    {
        let mut leave: Vec<u64> = Vec::new();
        if self.allowed_guilds.is_none() {
            return leave;
        }
        let mut i: usize = 0;
        while i < joined.len()
            invariant
                i <= joined.len(),
                self.allowed_guilds is Some,
                leave@ == joined@.take(i as int).filter(unlisted(self@.allowed_guilds->0)),
            decreases joined.len() - i,
        {
            let id = joined[i];
            proof {
                assert(joined@.take(i + 1).drop_last() == joined@.take(i as int));
                reveal(Seq::filter);
            }
            if !self.is_allowed_guild(id) {
                leave.push(id);
            }
            i += 1;
        }
        assert(joined@.take(i as int) == joined@);
        leave
    }
}

/// Nothing that an automated agent writes is authorized, whatever else holds of it.
pub proof fn lemma_agent_is_denied(policy: PolicyView, msg: MessageView)
    requires
        msg.author_is_bot,
    ensures
        !policy.authorizes(msg),
{
}

/// With a list of servers, a message from a server that is not on it is denied.
pub proof fn lemma_unlisted_guild_is_denied(policy: PolicyView, msg: MessageView)
    requires
        policy.allowed_guilds is Some,
        msg.guild_id is Some,
        !policy.allowed_guilds->0.contains(msg.guild_id->0),
    ensures
        !policy.authorizes(msg),
{
}

/// With an allowed channel, a message in another channel is denied, even if its
/// server is allowed.
pub proof fn lemma_other_channel_is_denied(policy: PolicyView, msg: MessageView)
    requires
        policy.allowed_channel is Some,
        msg.channel_id != policy.allowed_channel->0,
    ensures
        !policy.authorizes(msg),
{
}

/// A direct message is not held against the list of servers: if no agent wrote it
/// and its channel is allowed, it is authorized.
pub proof fn lemma_direct_message_skips_guild_check(policy: PolicyView, msg: MessageView)
    requires
        msg.guild_id is None,
        !msg.author_is_bot,
        policy.allows_channel(msg.channel_id),
    ensures
        policy.authorizes(msg),
{
}

/// Exactly the joined servers that are not allowed are left: a server on the list
/// never is.
pub proof fn lemma_departures(policy: PolicyView, joined: Seq<u64>, id: u64)
    ensures
        policy.departures(joined).contains(id) <==> joined.contains(id) && !policy.allows_guild(
            id,
        ),
{
    match policy.allowed_guilds {
        Some(ids) => {
            let left = joined.filter(unlisted(ids));
            if left.contains(id) {
                joined.lemma_filter_contains_rev(unlisted(ids), id);
                let k = choose|k: int| 0 <= k < left.len() && left[k] == id;
                joined.lemma_filter_pred(unlisted(ids), k);
            }
            if joined.contains(id) && !ids.contains(id) {
                let i = choose|i: int| 0 <= i < joined.len() && joined[i] == id;
                joined.lemma_filter_contains(unlisted(ids), i);
            }
        },
        None => {},
    }
}

} // verus!
