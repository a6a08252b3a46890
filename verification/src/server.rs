//! Telling subscribers that a new snapshot is ready.
//!
//! The update master drives the update cycle once per tick and compares the
//! version of the snapshot with the one it saw last. When the version moved,
//! every subscriber of that moment is to be sent one [`PleaseUpdate`].
//! Subscribers are known by a handle that the caller gives them; the caller
//! delivers, and a delivery that fails concerns no other subscriber.

use crate::cache::after_check;
use crate::cache::decision_at;
use crate::cache::Core;
use crate::cache::UpdateDecision;
use crate::text::chars_of;
use crate::text::string_of;
use crate::text::texts_of;
use vstd::prelude::*;

verus! {

/// Asks to be told of new snapshots.
#[derive(Debug, Clone, Copy)]
pub struct Subscribe(pub u64);

/// Asks not to be told any more.
#[derive(Debug, Clone, Copy)]
pub struct Unsubscribe(pub u64);

/// The event sent to subscribers: a new snapshot is ready.
#[derive(Debug, Clone, Copy)]
pub struct PleaseUpdate;

/// What an [`UpdateMasterActor`] holds.
pub struct UpdateMasterModel {
    pub last_version: usize,
    pub subscribers: Seq<u64>,
}

/// The subscribers and the version they were last told of.
pub struct UpdateMasterActor {
    last_version: usize,
    subscribers: Vec<u64>,
}

impl View for UpdateMasterActor {
    type V = UpdateMasterModel;

    closed spec fn view(&self) -> UpdateMasterModel {
        UpdateMasterModel { last_version: self.last_version, subscribers: self.subscribers@ }
    }
}

/// What one tick did.
#[derive(Debug)]
pub struct Tick {
    /// What the update cycle decided.
    pub decision: UpdateDecision,
    /// The subscribers to send one [`PleaseUpdate`] each, in the order they
    /// subscribed; a subscriber that subscribed twice is listed twice.
    pub recipients: Vec<u64>,
}

/// The test that every subscriber but `handle` passes.
pub open spec fn is_not(handle: u64) -> spec_fn(u64) -> bool {
    |s: u64| s != handle
}

/// `subscribers` without every entry of `handle`.
pub open spec fn without(subscribers: Seq<u64>, handle: u64) -> Seq<u64> {
    subscribers.filter(is_not(handle))
}

/// Removing a handle from a list that grew by one entry keeps that entry
/// unless it is the handle.
pub proof fn lemma_without_push(subscribers: Seq<u64>, entry: u64, handle: u64)
    ensures
        without(subscribers.push(entry), handle) == if entry != handle {
            without(subscribers, handle).push(entry)
        } else {
            without(subscribers, handle)
        },
{
    subscribers.lemma_filter_push(entry, is_not(handle));
}

/// The subscribers to tell when the version seen last was `last_version` and
/// the snapshot now has `version`: all of them if the two differ, else none.
pub open spec fn recipients_for(master: UpdateMasterModel, version: usize) -> Seq<u64> {
    if version != master.last_version {
        master.subscribers
    } else {
        Seq::empty()
    }
}

/// The pieces of `text` between its commas: a comma ends a piece and opens
/// the next, and every other character belongs to the piece that is open.
/// A text without comma is one piece; pieces may be empty.
pub open spec fn split_at_commas(text: Seq<char>) -> Seq<Seq<char>>
    decreases text.len(),
{
    if text.len() == 0 {
        seq![Seq::empty()]
    } else {
        let before = split_at_commas(text.drop_last());
        if text.last() == ',' {
            before.push(Seq::empty())
        } else {
            before.drop_last().push(before.last().push(text.last()))
        }
    }
}

/// There is always at least one piece.
pub proof fn lemma_split_is_not_empty(text: Seq<char>)
    ensures
        split_at_commas(text).len() >= 1,
    decreases text.len(),
{
    if text.len() > 0 {
        lemma_split_is_not_empty(text.drop_last());
    }
}

/// The origins that may read the graph from another site, as the operator
/// listed them in `setting`, separated by commas.
pub fn allowed_origins(setting: &str) -> (origins: Vec<String>)
    ensures
        texts_of(origins@) == split_at_commas(setting@),
{
    let chars = chars_of(setting);
    let mut origins: Vec<String> = Vec::new();
    let mut open: Vec<char> = Vec::new();
    let mut i: usize = 0;
    proof {
        assert(chars@.take(0) =~= Seq::empty());
    }
    while i < chars.len()
        invariant
            i <= chars.len(),
            texts_of(origins@).push(open@) == split_at_commas(
                chars@.take(i as int),
            ),
        decreases chars.len() - i,
    {
        let ghost before = split_at_commas(chars@.take(i as int));
        proof {
            assert(chars@.take(i + 1).drop_last() =~= chars@.take(i as int));
            assert(before.last() == open@);
            assert(before.drop_last() =~= texts_of(origins@));
        }
        if chars[i] == ',' {
            origins.push(string_of(&open));
            open = Vec::new();
            assert(texts_of(origins@) =~= before);
        } else {
            open.push(chars[i]);
        }
        i += 1;
    }
    assert(chars@.take(i as int) =~= chars@);
    let ghost closed = texts_of(origins@);
    origins.push(string_of(&open));
    assert(texts_of(origins@) =~= closed.push(open@));
    origins
}

impl UpdateMasterActor {
    /// An update master without subscribers that has seen the first version.
    pub fn new() -> (master: UpdateMasterActor)
        ensures
            master@ == (UpdateMasterModel { last_version: 0, subscribers: Seq::empty() }),
    {
        UpdateMasterActor { last_version: 0, subscribers: Vec::new() }
    }

    /// Adds a subscriber. One that subscribes again is added again, and is
    /// told once for each time.
    pub fn subscribe(&mut self, msg: Subscribe)
        ensures
            final(self)@ == (UpdateMasterModel {
                subscribers: old(self)@.subscribers.push(msg.0),
                ..old(self)@
            }),
    {
        self.subscribers.push(msg.0);
    }

    /// Removes every subscription of a subscriber; the others keep their order.
    pub fn unsubscribe(&mut self, msg: Unsubscribe)
        ensures
            final(self)@ == (UpdateMasterModel {
                subscribers: without(old(self)@.subscribers, msg.0),
                ..old(self)@
            }),
    {
        let ghost all = self.subscribers@;
        let mut kept: Vec<u64> = Vec::new();
        let mut i: usize = 0;
        while i < self.subscribers.len()
            invariant
                i <= self.subscribers.len(),
                self.subscribers@ == all,
                self.last_version == old(self).last_version,
                kept@ == without(all.take(i as int), msg.0),
            decreases self.subscribers.len() - i,
        {
            proof {
                assert(all.take(i + 1) =~= all.take(i as int).push(all[i as int]));
                lemma_without_push(all.take(i as int), all[i as int], msg.0);
            }
            if self.subscribers[i] != msg.0 {
                kept.push(self.subscribers[i]);
            }
            i += 1;
        }
        assert(all.take(i as int) =~= all);
        self.subscribers = kept;
    }

    /// The version that subscribers were last told of.
    pub fn last_version(&self) -> (version: usize)
        ensures
            version == self@.last_version,
    {
        self.last_version
    }

    /// Every subscriber, once for each subscription, in the order of subscribing.
    pub fn send_please_update_message(&self) -> (recipients: Vec<u64>)
        ensures
            recipients@ == self@.subscribers,
    {
        self.subscribers.clone()
    }

    /// One tick at `now`: lets `core` decide whether a rebuild starts, then
    /// looks at the version of the snapshot. If it is not the version seen
    /// last, it becomes the version seen last and every subscriber is to be
    /// told; if it is, nobody is.
    pub fn tick(&mut self, core: &mut Core, now: u64) -> (tick: Tick)
        ensures
            tick.decision == decision_at(old(core)@, now),
            final(core)@ == after_check(old(core)@, now),
            tick.recipients@ == recipients_for(old(self)@, old(core)@.graph.version),
            final(self)@ == (UpdateMasterModel {
                last_version: old(core)@.graph.version,
                ..old(self)@
            }),
    {
        // Tell the core to update itself if required
        let decision = core.check_for_graph_update(now);

        // Check if a new version the graph is ready
        let version = core.version();
        if version != self.last_version {
            self.last_version = version;
            Tick { decision, recipients: self.send_please_update_message() }
        } else {
            Tick { decision, recipients: Vec::new() }
        }
    }
}

} // verus!
