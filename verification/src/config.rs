//! The bot's configuration: presence, reaction roles and thread channels.
use vstd::prelude::*;
use vstd::string::*;

verus! {

/// The kind of a Discord activity (serenity's `ActivityType`).
#[derive(Clone, Copy, Debug, PartialEq, Eq, Structural)]
pub enum ActivityKind {
    Playing,
    Streaming,
    Listening,
    Watching,
    Custom,
    Competing,
    Unknown,
}

/// The activity the bot shows once it is connected.
#[derive(Clone, Debug)]
pub struct Status {
    pub activity: ActivityKind,
    pub message: String,
}

/// How a presence is shown: "Listening to", "Playing", "Watching".
#[derive(Clone, Copy, Debug, PartialEq, Eq, Structural)]
pub enum PresenceKind {
    Listening,
    Playing,
    Watching,
}

/// The activity the bot sets on `ready`.
#[derive(Clone, Debug)]
pub struct Presence {
    pub kind: PresenceKind,
    pub text: String,
}

/// Text shown when the configured activity cannot be displayed.
pub open spec fn fallback_presence_text() -> Seq<char> {
    "everyone's requests!"@
}

/// The presence for a configured status: listening, playing and watching
/// activities are shown with their message, any other kind falls back to
/// listening to everyone's requests.
pub open spec fn presence_for(activity: ActivityKind, message: Seq<char>) -> (PresenceKind, Seq<char>) {
    match activity {
        ActivityKind::Listening => (PresenceKind::Listening, message),
        ActivityKind::Playing => (PresenceKind::Playing, message),
        ActivityKind::Watching => (PresenceKind::Watching, message),
        _ => (PresenceKind::Listening, fallback_presence_text()),
    }
}

impl Status {
    /// The presence to set for this status.
    pub fn presence(&self) -> (p: Presence)
        ensures
            (p.kind, p.text@) == presence_for(self.activity, self.message@),
    {
        match self.activity {
            ActivityKind::Listening => Presence { kind: PresenceKind::Listening, text: self.message.clone() },
            ActivityKind::Playing => Presence { kind: PresenceKind::Playing, text: self.message.clone() },
            ActivityKind::Watching => Presence { kind: PresenceKind::Watching, text: self.message.clone() },
            _ => {
                let text = String::from_str("everyone's requests!");
                Presence { kind: PresenceKind::Listening, text }
            },
        }
    }
}

/// The map that a sequence of key/value insertions builds: a later pair
/// replaces an earlier one with the same key.
pub open spec fn pairs_map(pairs: Seq<(String, String)>) -> Map<Seq<char>, Seq<char>>
    decreases pairs.len(),
{
    if pairs.len() == 0 {
        Map::empty()
    } else {
        pairs_map(pairs.drop_last()).insert(pairs.last().0@, pairs.last().1@)
    }
}

/// A key is in the map exactly when some pair has it, and its value is the
/// one of the last such pair.
proof fn lemma_pairs_map(pairs: Seq<(String, String)>, key: Seq<char>)
    ensures
        pairs_map(pairs).contains_key(key) <==> exists|i: int|
            0 <= i < pairs.len() && #[trigger] pairs[i].0@ == key,
        forall|i: int|
            0 <= i < pairs.len() && #[trigger] pairs[i].0@ == key && (forall|k: int|
                i < k < pairs.len() ==> pairs[k].0@ != key) ==> pairs_map(pairs)[key]
                == pairs[i].1@,
    decreases pairs.len(),
{
    if pairs.len() > 0 {
        let rest = pairs.drop_last();
        lemma_pairs_map(rest, key);
        assert forall|i: int| 0 <= i < rest.len() implies rest[i] == pairs[i] by {}
        if pairs.last().0@ != key {
            if pairs_map(pairs).contains_key(key) {
                let i = choose|i: int| 0 <= i < rest.len() && #[trigger] rest[i].0@ == key;
                assert(pairs[i].0@ == key);
            }
            assert forall|i: int|
                0 <= i < pairs.len() && #[trigger] pairs[i].0@ == key && (forall|k: int|
                    i < k < pairs.len() ==> pairs[k].0@ != key) implies pairs_map(pairs)[key]
                == pairs[i].1@ by {
                assert(i < rest.len());
                assert(rest[i].0@ == key);
            }
        } else {
            assert(pairs[pairs.len() - 1].0@ == key);
        }
    }
}

/// Role names by the name of the emoji that grants them.
#[derive(Clone, Debug)]
pub struct RoleMap {
    pairs: Vec<(String, String)>,
}

impl View for RoleMap {
    type V = Map<Seq<char>, Seq<char>>;

    closed spec fn view(&self) -> Map<Seq<char>, Seq<char>> {
        pairs_map(self.pairs@)
    }
}

impl RoleMap {
    /// The empty map.
    pub fn new() -> (m: RoleMap)
        ensures
            m@ == Map::<Seq<char>, Seq<char>>::empty(),
    {
        RoleMap { pairs: Vec::new() }
    }

    /// Maps `emoji` to `role`, replacing an earlier role for that emoji.
    pub fn insert(&mut self, emoji: String, role: String)
        ensures
            final(self)@ == old(self)@.insert(emoji@, role@),
    {
        let ghost before = self.pairs@;
        self.pairs.push((emoji, role));
        assert(self.pairs@.drop_last() =~= before);
    }

    /// The role mapped to `emoji`, if any.
    pub fn get(&self, emoji: &str) -> (role: Option<&String>)
        ensures
            match role {
                Some(r) => self@.contains_key(emoji@) && r@ == self@[emoji@],
                None => !self@.contains_key(emoji@),
            },
    {
        let key = emoji.to_owned();
        let mut i: usize = self.pairs.len();
        while i > 0
            invariant
                i <= self.pairs.len(),
                key@ == emoji@,
                forall|k: int| i <= k < self.pairs@.len() ==> self.pairs@[k].0@ != key@,
            decreases i,
        {
            i = i - 1;
            if self.pairs[i].0 == key {
                proof {
                    lemma_pairs_map(self.pairs@, key@);
                }
                return Some(&self.pairs[i].1);
            }
        }
        proof {
            lemma_pairs_map(self.pairs@, key@);
        }
        None
    }

    /// Whether some role is mapped to `emoji`.
    pub fn contains_key(&self, emoji: &str) -> (b: bool)
        ensures
            b == self@.contains_key(emoji@),
    {
        self.get(emoji).is_some()
    }

    /// The emoji/role pairs in insertion order; inserting them in this
    /// order into an empty map gives this map back.
    pub fn pairs(&self) -> (p: &Vec<(String, String)>)
        ensures
            pairs_map(p@) == self@,
    {
        &self.pairs
    }
}

/// A set of channel names.
#[derive(Clone, Debug)]
pub struct ChannelNames {
    names: Vec<String>,
}

impl View for ChannelNames {
    type V = Set<Seq<char>>;

    closed spec fn view(&self) -> Set<Seq<char>> {
        Set::new(|n: Seq<char>| exists|i: int| 0 <= i < self.names@.len() && self.names@[i]@ == n)
    }
}

impl ChannelNames {
    /// The empty set.
    pub fn new() -> (s: ChannelNames)
        ensures
            s@ == Set::<Seq<char>>::empty(),
    {
        let s = ChannelNames { names: Vec::new() };
        assert(s@ =~= Set::<Seq<char>>::empty());
        s
    }

    /// Adds a channel name.
    pub fn insert(&mut self, name: String)
        ensures
            final(self)@ == old(self)@.insert(name@),
    {
        let ghost before = *self;
        self.names.push(name);
        assert forall|n: Seq<char>| before@.insert(name@).contains(n) implies self@.contains(n) by {
            if n != name@ {
                let i = choose|i: int| 0 <= i < before.names@.len() && before.names@[i]@ == n;
                assert(self.names@[i] == before.names@[i]);
            } else {
                assert(self.names@[self.names@.len() - 1]@ == n);
            }
        }
        assert forall|n: Seq<char>| self@.contains(n) implies before@.insert(name@).contains(n) by {
            let i = choose|i: int| 0 <= i < self.names@.len() && self.names@[i]@ == n;
            if i < before.names@.len() {
                assert(self.names@[i] == before.names@[i]);
            }
        }
        assert(self@ =~= before@.insert(name@));
    }

    /// Whether the set holds `name`.
    pub fn contains(&self, name: &str) -> (b: bool)
        ensures
            b == self@.contains(name@),
    {
        let key = name.to_owned();
        let mut i: usize = 0;
        while i < self.names.len()
            invariant
                i <= self.names.len(),
                key@ == name@,
                forall|k: int| 0 <= k < i ==> self.names@[k]@ != key@,
            decreases self.names.len() - i,
        {
            if self.names[i] == key {
                assert(self.names@[i as int]@ == name@);
                return true;
            }
            i = i + 1;
        }
        false
    }

    /// The names, each once or more.
    pub fn names(&self) -> (n: &Vec<String>)
        ensures
            forall|s: Seq<char>|
                self@.contains(s) <==> exists|i: int| 0 <= i < n@.len() && #[trigger] n@[i]@ == s,
    {
        &self.names
    }
}

/// Where reaction roles are handed out, and which emoji grants which role.
#[derive(Clone, Debug)]
pub struct ReactionRoles {
    pub channel: u64,
    pub role_map: RoleMap,
}

/// Channels in which every new message opens a thread, and the message the
/// bot posts in such a thread.
#[derive(Clone, Debug)]
pub struct ThreadChannels {
    pub channels: ChannelNames,
    pub creation_message: String,
}

/// The whole configuration.
#[derive(Clone, Debug)]
pub struct Config {
    pub prefix: String,
    pub status: Status,
    pub reaction_roles: ReactionRoles,
    pub thread_channels: ThreadChannels,
}

impl Config {
    /// The role that the reaction emoji of this name grants.
    pub fn get_role(&self, reaction: &str) -> (role: Option<&String>)
        ensures
            match role {
                Some(r) => self.reaction_roles.role_map@.contains_key(reaction@) && r@
                    == self.reaction_roles.role_map@[reaction@],
                None => !self.reaction_roles.role_map@.contains_key(reaction@),
            },
    {
        self.reaction_roles.role_map.get(reaction)
    }
}

} // verus!
