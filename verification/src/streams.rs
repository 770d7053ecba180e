//! Per-sandbox streams: a live feed for watchers and a bounded tail for replay.

use crate::channel::{
    announce, broadcast_limit, broadcast_offers, broadcasts, fed_channel, heard_channel, join,
    listener_counts, listeners, missed, new_broadcast,
};
use crate::log_line::{SandboxStreamEvent, StreamEventView};
use crate::string_map::{law_lookup_after_upsert, law_lookup_after_without, lookup, StringMap};
use std::collections::VecDeque;
use tokio::sync::broadcast;
use vstd::prelude::*;
use vstd::string::*;

verus! {

/// How many events a feed holds for a slow watcher.
pub const FEED_CAPACITY: usize = 1024;

/// The live feed of a sandbox.
#[derive(Debug)]
pub struct Feed {
    tx: broadcast::Sender<SandboxStreamEvent>,
}

/// The contents of a [`Feed`].
pub struct FeedView {
    /// The channel that it sends on.
    pub channel: nat,
    /// What was offered to whoever watches it, oldest first.
    pub offered: Seq<StreamEventView>,
    /// What of it was sent, because somebody watched.
    pub sent: Seq<StreamEventView>,
    /// How many were found watching, each time somebody asked, oldest first.
    pub counts: Seq<usize>,
    /// How many events it holds for a slow watcher.
    pub limit: usize,
}

impl View for Feed {
    type V = FeedView;

    closed spec fn view(&self) -> FeedView {
        FeedView {
            channel: fed_channel(self.tx),
            offered: broadcast_offers(self.tx),
            sent: broadcasts(self.tx),
            counts: listener_counts(self.tx),
            limit: broadcast_limit(self.tx),
        }
    }
}

impl FeedView {
    /// A feed on a channel that nothing has been sent on.
    pub open spec fn fresh(channel: nat) -> FeedView {
        FeedView {
            channel,
            offered: Seq::empty(),
            sent: Seq::empty(),
            counts: Seq::empty(),
            limit: FEED_CAPACITY,
        }
    }

    /// Whether a watcher hears what the feed sends from here on.
    pub open spec fn heard_by(self, watcher: broadcast::Receiver<SandboxStreamEvent>) -> bool {
        &&& heard_channel(watcher) == self.channel
        &&& missed(watcher) == self.sent
    }

    /// The feed after so many were found watching it.
    pub open spec fn counting(self, watchers: usize) -> FeedView {
        FeedView { counts: self.counts.push(watchers), ..self }
    }

    /// The feed after an event was offered to it, heard or not.
    pub open spec fn offering(self, event: StreamEventView, heard: bool) -> FeedView {
        FeedView {
            offered: self.offered.push(event),
            sent: if heard {
                self.sent.push(event)
            } else {
                self.sent
            },
            ..self
        }
    }

    /// The feed after an event was published while so many watched: for nobody
    /// it is not even offered.
    pub open spec fn publishing(
        self,
        event: StreamEventView,
        watchers: usize,
        heard: bool,
    ) -> FeedView {
        if watchers == 0 {
            self
        } else {
            self.offering(event, heard)
        }
    }
}

impl Feed {
    /// A feed that nothing has been sent on.
    fn new() -> (feed: Feed)
        ensures
            feed@ == FeedView::fresh(feed@.channel),
    {
        Feed { tx: new_broadcast(FEED_CAPACITY) }
    }

    /// Watch the feed from here on.
    fn watch(&self) -> (watcher: broadcast::Receiver<SandboxStreamEvent>)
        ensures
            self@.heard_by(watcher),
    {
        join(&self.tx)
    }

    /// Offer an event, and say whether anybody heard it.
    fn send(&mut self, event: SandboxStreamEvent) -> (heard: bool)
        ensures
            final(self)@ == old(self)@.offering(event@, heard),
    {
        announce(&mut self.tx, event)
    }

    /// How many watch the feed at the moment.
    fn watchers(&mut self) -> (count: usize)
        ensures
            final(self)@ == old(self)@.counting(count),
    {
        listeners(&mut self.tx)
    }
}

/// The most recent events of a sandbox.
#[derive(Debug)]
pub struct Tail {
    events: VecDeque<SandboxStreamEvent>,
}

/// The contents of a list of events.
pub open spec fn events_of(events: Seq<SandboxStreamEvent>) -> Seq<StreamEventView> {
    events.map_values(|event: SandboxStreamEvent| event@)
}

/// The last `max` items of a list, or all of a shorter one.
pub open spec fn recent<T>(items: Seq<T>, max: nat) -> Seq<T> {
    if items.len() > max {
        items.skip(items.len() - max)
    } else {
        items
    }
}

impl View for Tail {
    type V = Seq<StreamEventView>;

    closed spec fn view(&self) -> Seq<StreamEventView> {
        events_of(self.events@)
    }
}

impl Tail {
    /// A tail without events.
    fn new() -> (tail: Tail)
        ensures
            tail@ == Seq::<StreamEventView>::empty(),
    {
        let tail = Tail { events: VecDeque::new() };
        proof {
            assert(tail@ =~= Seq::empty());
        }
        tail
    }

    /// Append an event, and drop the oldest ones beyond `cap`.
    fn remember(&mut self, event: SandboxStreamEvent, cap: usize)
        ensures
            final(self)@ == recent(old(self)@.push(event@), cap as nat),
    {
        let ghost all = self@.push(event@);
        self.events.push_back(event);
        proof {
            assert(self@ =~= all);
            assert(all.skip(0) =~= all);
        }
        let ghost mut dropped: int = 0;
        while self.events.len() > cap
            invariant
                0 <= dropped <= all.len(),
                self@ == all.skip(dropped),
                dropped > 0 ==> all.len() - dropped >= cap,
            decreases self@.len(),
        {
            let ghost before = self.events@;
            let _ = self.events.pop_front();
            proof {
                assert(self@ =~= events_of(before).skip(1));
                assert(all.skip(dropped).skip(1) =~= all.skip(dropped + 1));
                dropped = dropped + 1;
            }
        }
        proof {
            assert(self@.len() == all.len() - dropped);
        }
    }

    /// The last `max` events, oldest first.
    fn last(&self, max: usize) -> (events: Vec<SandboxStreamEvent>)
        ensures
            events_of(events@) == recent(self@, max as nat),
    {
        let len = self.events.len();
        let start: usize = if len > max {
            len - max
        } else {
            0
        };
        let mut events: Vec<SandboxStreamEvent> = Vec::new();
        let mut i: usize = start;
        while i < len
            invariant
                start <= i <= len,
                len == self@.len(),
                len == self.events@.len(),
                events_of(events@) =~= self@.subrange(start as int, i as int),
            decreases len - i,
        {
            let event = self.events[i].clone();
            let ghost before = events_of(events@);
            events.push(event);
            proof {
                assert(event@ == self@[i as int]);
                assert(events_of(events@) =~= before.push(event@));
            }
            i = i + 1;
        }
        proof {
            assert(self@.subrange(start as int, len as int) =~= recent(self@, max as nat));
        }
        events
    }
}

/// The streams of all sandboxes.
#[derive(Debug)]
pub struct Streams {
    feeds: StringMap<Feed>,
    tails: StringMap<Tail>,
}

impl Streams {
    /// The feed of a sandbox, where it has one.
    pub closed spec fn feed(&self, sandbox_id: Seq<char>) -> Option<FeedView> {
        lookup(self.feeds.ordered(), sandbox_id)
    }

    /// The tail of a sandbox, where it has one.
    pub closed spec fn kept(&self, sandbox_id: Seq<char>) -> Option<Seq<StreamEventView>> {
        lookup(self.tails.ordered(), sandbox_id)
    }

    /// The buffered events of a sandbox, oldest first.
    pub open spec fn buffered(&self, sandbox_id: Seq<char>) -> Seq<StreamEventView> {
        match self.kept(sandbox_id) {
            Some(events) => events,
            None => Seq::empty(),
        }
    }

    /// Whether every sandbox has the same feed in both.
    pub open spec fn same_feeds(&self, other: &Streams) -> bool {
        forall|id: Seq<char>| #[trigger] self.feed(id) == other.feed(id)
    }

    /// Whether every sandbox has the same tail in both.
    pub open spec fn same_tails(&self, other: &Streams) -> bool {
        forall|id: Seq<char>| #[trigger] self.kept(id) == other.kept(id)
    }

    /// No streams.
    #[must_use]
    pub fn new() -> (streams: Streams)
        ensures
            forall|id: Seq<char>| (#[trigger] streams.feed(id)) is None,
            forall|id: Seq<char>| (#[trigger] streams.kept(id)) is None,
    {
        Streams { feeds: StringMap::new(), tails: StringMap::new() }
    }

    /// Whether a sandbox has a feed now, a fresh one where it had none, and no
    /// other feed changed.
    pub open spec fn opens(&self, before: &Streams, sandbox_id: Seq<char>) -> bool {
        &&& forall|id: Seq<char>|
            id != sandbox_id || before.feed(id) is Some ==> #[trigger] self.feed(id) == before.feed(
                id,
            )
        &&& self.feed(sandbox_id) is Some
        &&& before.feed(sandbox_id) is None ==> self.feed(sandbox_id)->0 == FeedView::fresh(
            self.feed(sandbox_id)->0.channel,
        )
    }

    /// Make sure that a sandbox has a feed.
    pub fn open_feed(&mut self, sandbox_id: &str)
        ensures
            final(self).opens(old(self), sandbox_id@),
            final(self).same_tails(old(self)),
    {
        let absent = self.feeds.get(sandbox_id).is_none();
        if absent {
            let ghost before = self.feeds.ordered();
            let feed = Feed::new();
            self.feeds.insert(sandbox_id.to_owned(), feed);
            proof {
                assert forall|id: Seq<char>| #[trigger]
                    self.feed(id) == if id == sandbox_id@ {
                        Some(feed@)
                    } else {
                        old(self).feed(id)
                    } by {
                    law_lookup_after_upsert(before, sandbox_id@, feed@, id);
                }
            }
        }
    }

    /// Watch a sandbox's feed from here on.
    #[must_use]
    pub fn watch(&mut self, sandbox_id: &str) -> (watcher: broadcast::Receiver<SandboxStreamEvent>)
        ensures
            final(self).opens(old(self), sandbox_id@),
            final(self).same_tails(old(self)),
            final(self).feed(sandbox_id@) matches Some(feed) && feed.heard_by(watcher),
    {
        self.open_feed(sandbox_id);
        self.feeds.get(sandbox_id).unwrap().watch()
    }

    /// Drop a sandbox's feed and tail.
    pub fn remove(&mut self, sandbox_id: &str)
        ensures
            forall|id: Seq<char>| #[trigger] final(self).feed(id) == if id == sandbox_id@ {
                None
            } else {
                old(self).feed(id)
            },
            forall|id: Seq<char>| #[trigger] final(self).kept(id) == if id == sandbox_id@ {
                None
            } else {
                old(self).kept(id)
            },
    {
        let _ = self.feeds.remove(sandbox_id);
        let _ = self.tails.remove(sandbox_id);
        proof {
            assert forall|id: Seq<char>| #[trigger]
                self.feed(id) == if id == sandbox_id@ {
                    None
                } else {
                    old(self).feed(id)
                } by {
                law_lookup_after_without(old(self).feeds.ordered(), sandbox_id@, id);
            }
            assert forall|id: Seq<char>| #[trigger]
                self.kept(id) == if id == sandbox_id@ {
                    None
                } else {
                    old(self).kept(id)
                } by {
                law_lookup_after_without(old(self).tails.ordered(), sandbox_id@, id);
            }
        }
    }

    /// The last `max` buffered events of a sandbox, oldest first.
    #[must_use]
    pub fn tail(&self, sandbox_id: &str, max: usize) -> (events: Vec<SandboxStreamEvent>)
        ensures
            events_of(events@) == recent(self.buffered(sandbox_id@), max as nat),
    {
        match self.tails.get(sandbox_id) {
            Some(tail) => tail.last(max),
            None => {
                let events: Vec<SandboxStreamEvent> = Vec::new();
                proof {
                    assert(events_of(events@) =~= Seq::empty());
                }
                events
            },
        }
    }

    /// Append an event to a sandbox's tail, which keeps `cap` events.
    pub fn remember(&mut self, sandbox_id: &str, event: SandboxStreamEvent, cap: usize)
        ensures
            forall|id: Seq<char>| #[trigger] final(self).kept(id) == if id == sandbox_id@ {
                Some(recent(old(self).buffered(id).push(event@), cap as nat))
            } else {
                old(self).kept(id)
            },
            final(self).same_feeds(old(self)),
    {
        let ghost start = self.tails.ordered();
        let mut tail = match self.tails.remove(sandbox_id) {
            Some(tail) => tail,
            None => Tail::new(),
        };
        let ghost middle = self.tails.ordered();
        tail.remember(event, cap);
        self.tails.insert(sandbox_id.to_owned(), tail);
        proof {
            assert forall|id: Seq<char>| #[trigger]
                self.kept(id) == if id == sandbox_id@ {
                    Some(recent(old(self).buffered(id).push(event@), cap as nat))
                } else {
                    old(self).kept(id)
                } by {
                law_lookup_after_without(start, sandbox_id@, id);
                law_lookup_after_upsert(middle, sandbox_id@, tail@, id);
            }
        }
    }

    /// How many watch a sandbox's feed at the moment; nobody where it has none.
    #[must_use]
    pub fn watchers(&mut self, sandbox_id: &str) -> (count: usize)
        ensures
            old(self).feed(sandbox_id@) is None ==> count == 0,
            forall|id: Seq<char>| #[trigger] final(self).feed(id) == match old(self).feed(id) {
                Some(feed) if id == sandbox_id@ => Some(feed.counting(count)),
                other => other,
            },
            final(self).same_tails(old(self)),
    {
        if self.feeds.get(sandbox_id).is_none() {
            return 0;
        }
        let ghost start = self.feeds.ordered();
        let mut feed = self.feeds.remove(sandbox_id).unwrap();
        let ghost middle = self.feeds.ordered();
        let count = feed.watchers();
        self.feeds.insert(sandbox_id.to_owned(), feed);
        proof {
            assert forall|id: Seq<char>| #[trigger] self.feed(id) == match old(self).feed(id) {
                Some(feed) if id == sandbox_id@ => Some(feed.counting(count)),
                other => other,
            } by {
                law_lookup_after_without(start, sandbox_id@, id);
                law_lookup_after_upsert(middle, sandbox_id@, feed@, id);
            }
        }
        count
    }

    /// Offer an event on a sandbox's feed where it has one, and say whether
    /// anybody heard it.
    pub fn send(&mut self, sandbox_id: &str, event: &SandboxStreamEvent) -> (heard: bool)
        ensures
            old(self).feed(sandbox_id@) is None ==> !heard,
            forall|id: Seq<char>| #[trigger] final(self).feed(id) == match old(self).feed(id) {
                Some(feed) if id == sandbox_id@ => Some(feed.offering(event@, heard)),
                other => other,
            },
            final(self).same_tails(old(self)),
    {
        if self.feeds.get(sandbox_id).is_none() {
            return false;
        }
        let ghost start = self.feeds.ordered();
        let mut feed = self.feeds.remove(sandbox_id).unwrap();
        let ghost middle = self.feeds.ordered();
        let heard = feed.send(event.clone());
        self.feeds.insert(sandbox_id.to_owned(), feed);
        proof {
            assert forall|id: Seq<char>| #[trigger] self.feed(id) == match old(self).feed(id) {
                Some(feed) if id == sandbox_id@ => Some(feed.offering(event@, heard)),
                other => other,
            } by {
                law_lookup_after_without(start, sandbox_id@, id);
                law_lookup_after_upsert(middle, sandbox_id@, feed@, id);
            }
        }
        heard
    }

    /// Offer an event on a sandbox's feed, given how many watch it: for nobody,
    /// nothing is copied or offered.
    pub fn send_to(
        &mut self,
        sandbox_id: &str,
        event: &SandboxStreamEvent,
        watchers: usize,
    ) -> (heard: bool)
        ensures
            old(self).feed(sandbox_id@) is None || watchers == 0 ==> !heard,
            forall|id: Seq<char>| #[trigger] final(self).feed(id) == match old(self).feed(id) {
                Some(feed) if id == sandbox_id@ => Some(feed.publishing(event@, watchers, heard)),
                other => other,
            },
            final(self).same_tails(old(self)),
    {
        if watchers == 0 {
            return false;
        }
        self.send(sandbox_id, event)
    }
}

/// A tail never exceeds its cap, and what it holds are the latest events in
/// order: keeping the last `cap` after every append is keeping the last `cap`
/// of everything appended.
pub proof fn law_a_tail_holds_the_latest<T>(before: Seq<T>, item: T, cap: nat)
    ensures
        recent(before, cap).len() <= cap,
        recent(recent(before, cap).push(item), cap) == recent(before.push(item), cap),
{
    assert(recent(recent(before, cap).push(item), cap) =~= recent(before.push(item), cap));
}

/// Asking a tail for fewer events gives the latest of them.
pub proof fn law_a_shorter_tail_is_the_latest_part<T>(items: Seq<T>, cap: nat, max: nat)
    ensures
        recent(recent(items, cap), max) == recent(
            items,
            if max < cap {
                max
            } else {
                cap
            },
        ),
{
    assert(recent(recent(items, cap), max) =~= recent(
        items,
        if max < cap {
            max
        } else {
            cap
        },
    ));
}

} // verus!
