use vstd::prelude::*;
use dashmap::DashMap;
use dashmap::DashSet;
use crate::node::Node;
use crate::node::NodeView;

verus! {

#[verifier::external_type_specification]
#[verifier::external_body]
#[verifier::reject_recursive_types(K)]
#[verifier::reject_recursive_types(V)]
#[verifier::reject_recursive_types(S)]
pub struct ExDashMap<K, V, S>(DashMap<K, V, S>);

#[verifier::external_type_specification]
#[verifier::external_body]
#[verifier::reject_recursive_types(K)]
#[verifier::reject_recursive_types(S)]
pub struct ExDashSet<K, S>(DashSet<K, S>);

// A `DashMap` changes behind a shared reference. Here every call that changes
// one takes the map by `&mut`, and no guard into a map ever leaves this file:
// while a caller holds a reference nobody else can reach the map, so what it
// holds is a value like any other, and no call below ever waits for a lock.

/// The entries a `DashMap` of nodes holds, each node by its view.
pub uninterp spec fn node_entries(map: DashMap<u64, Node>) -> Map<u64, NodeView>;

/// The members of a `DashSet` of guild numbers.
pub uninterp spec fn guild_members(set: DashSet<u64>) -> Set<u64>;

/// `DashMap::new`: a map without entries.
#[verifier::external_body]
fn map_new() -> (created: DashMap<u64, Node>)
    ensures
        node_entries(created) == (Map::<u64, NodeView>::empty()),
{
    DashMap::new()
}

/// `DashMap::contains_key`: whether the key has an entry.
#[verifier::external_body]
fn map_contains_key(map: &DashMap<u64, Node>, key: u64) -> (found: bool)
    ensures
        found == node_entries(*map).contains_key(key),
{
    map.contains_key(&key)
}

/// `DashMap::insert`: the key maps to the new value afterwards, every other
/// entry is untouched, and the value that was replaced, if any, comes back.
#[verifier::external_body]
fn map_insert(map: &mut DashMap<u64, Node>, key: u64, node: Node) -> (previous: Option<Node>)
    ensures
        node_entries(*final(map)) == node_entries(*old(map)).insert(key, node@),
        previous is Some <==> node_entries(*old(map)).contains_key(key),
        previous matches Some(p) ==> p@ == node_entries(*old(map))[key],
{
    map.insert(key, node)
}

/// `DashMap::remove`: the entry of the key leaves the map and is returned
/// with its key; without such an entry nothing changes.
#[verifier::external_body]
fn map_remove(map: &mut DashMap<u64, Node>, key: u64) -> (removed: Option<(u64, Node)>)
    ensures
        node_entries(*final(map)) == node_entries(*old(map)).remove(key),
        removed is Some <==> node_entries(*old(map)).contains_key(key),
        removed matches Some(entry) ==> entry.0 == key && entry.1@ == node_entries(*old(map))[key],
{
    map.remove(&key)
}

/// `DashMap::view`: applies the closure to the entry of the key, if there is
/// one, and returns what it gives; here the closure clones the node, and a
/// clone of a node has the view of the node.
#[verifier::external_body]
fn map_view(map: &DashMap<u64, Node>, key: u64) -> (copy: Option<Node>)
    ensures
        copy is Some <==> node_entries(*map).contains_key(key),
        copy matches Some(node) ==> node@ == node_entries(*map)[key],
{
    map.view(&key, |_, node| node.clone())
}

/// `DashSet::new`: a set without members.
#[verifier::external_body]
fn set_new() -> (created: DashSet<u64>)
    ensures
        guild_members(created) == Set::<u64>::empty(),
{
    DashSet::new()
}

/// `DashSet::contains`: whether the key is a member.
#[verifier::external_body]
fn set_contains(set: &DashSet<u64>, key: u64) -> (found: bool)
    ensures
        found == guild_members(*set).contains(key),
{
    set.contains(&key)
}

/// `DashSet::insert`: the key is a member afterwards; the result says
/// whether it was new.
#[verifier::external_body]
fn set_insert(set: &mut DashSet<u64>, key: u64) -> (fresh: bool)
    ensures
        guild_members(*final(set)) == guild_members(*old(set)).insert(key),
        fresh == !guild_members(*old(set)).contains(key),
{
    set.insert(key)
}

/// `DashSet::remove`: the key is no member afterwards; it comes back if it
/// was one.
#[verifier::external_body]
fn set_remove(set: &mut DashSet<u64>, key: u64) -> (removed: Option<u64>)
    ensures
        guild_members(*final(set)) == guild_members(*old(set)).remove(key),
        removed is Some <==> guild_members(*old(set)).contains(key),
        removed matches Some(k) ==> k == key,
{
    set.remove(&key)
}


/// The playback states of all guilds that have a session, by guild number.
///
/// The registry is changed through `&mut` only, so what it holds never
/// shifts under a reader.
pub struct NodeRegistry {
    map: DashMap<u64, Node>,
}

impl View for NodeRegistry {
    type V = Map<u64, NodeView>;

    closed spec fn view(&self) -> Map<u64, NodeView> {
        node_entries(self.map)
    }
}

impl NodeRegistry {
    /// A registry without nodes.
    pub fn new() -> (registry: Self)
        ensures
            registry@ == Map::<u64, NodeView>::empty(),
    {
        NodeRegistry { map: map_new() }
    }

    /// Whether the guild has a node.
    pub fn contains_key(&self, guild: u64) -> (found: bool)
        ensures
            found == self@.contains_key(guild),
    {
        map_contains_key(&self.map, guild)
    }

    /// A copy of the guild's node, if it has one.
    pub fn get(&self, guild: u64) -> (copy: Option<Node>)
        ensures
            copy is Some <==> self@.contains_key(guild),
            copy matches Some(node) ==> node@ == self@[guild],
    {
        map_view(&self.map, guild)
    }

    /// Files the node under the guild and returns the node it replaces.
    pub fn insert(&mut self, guild: u64, node: Node) -> (previous: Option<Node>)
        ensures
            final(self)@ == old(self)@.insert(guild, node@),
            previous is Some <==> old(self)@.contains_key(guild),
            previous matches Some(p) ==> p@ == old(self)@[guild],
    {
        map_insert(&mut self.map, guild, node)
    }

    /// Takes the guild's node out of the registry.
    pub fn remove(&mut self, guild: u64) -> (removed: Option<Node>)
        ensures
            final(self)@ == old(self)@.remove(guild),
            removed is Some <==> old(self)@.contains_key(guild),
            removed matches Some(node) ==> node@ == old(self)@[guild],
    {
        match map_remove(&mut self.map, guild) {
            Some(entry) => Some(entry.1),
            None => None,
        }
    }
}

/// The guilds for which a dispatcher has been started.
pub struct ActiveLoops {
    set: DashSet<u64>,
}

impl View for ActiveLoops {
    type V = Set<u64>;

    closed spec fn view(&self) -> Set<u64> {
        guild_members(self.set)
    }
}

impl ActiveLoops {
    /// A set without guilds.
    pub fn new() -> (loops: Self)
        ensures
            loops@ == Set::<u64>::empty(),
    {
        ActiveLoops { set: set_new() }
    }

    /// Whether a dispatcher has been started for the guild.
    pub fn contains(&self, guild: u64) -> (found: bool)
        ensures
            found == self@.contains(guild),
    {
        set_contains(&self.set, guild)
    }

    /// Records the guild and says whether it was new.
    pub fn insert(&mut self, guild: u64) -> (fresh: bool)
        ensures
            final(self)@ == old(self)@.insert(guild),
            fresh == !old(self)@.contains(guild),
    {
        set_insert(&mut self.set, guild)
    }

    /// Forgets the guild and says whether it was recorded.
    pub fn remove(&mut self, guild: u64) -> (found: bool)
        ensures
            final(self)@ == old(self)@.remove(guild),
            found == old(self)@.contains(guild),
    {
        match set_remove(&mut self.set, guild) {
            Some(_) => true,
            None => false,
        }
    }
}

} // verus!
