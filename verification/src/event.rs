//! The facts that the ledger emits when its state changes. Observers read
//! them; the ledger never does.

use vstd::prelude::*;
use crate::identity::Identity;

verus! {

/// Emitted when a video was recorded.
#[derive(Debug, PartialEq, Eq)]
pub struct VideoUploadedEvent {
    pub video_id: i64,
    pub uploader: Identity,
    pub title: String,
    pub price: i128,
}

/// Emitted when a buyer was granted access to a video.
#[derive(Debug, PartialEq, Eq)]
pub struct VideoPurchasedEvent {
    pub video_id: i64,
    pub buyer: Identity,
    pub price: i128,
    pub token: Identity,
}

/// A fact emitted by the ledger.
#[derive(Debug, PartialEq, Eq)]
pub enum Event {
    Uploaded(VideoUploadedEvent),
    Purchased(VideoPurchasedEvent),
}

/// The mathematical content of an [`Event`].
pub enum Fact {
    Uploaded { video_id: int, uploader: Seq<char>, title: Seq<char>, price: int },
    Purchased { video_id: int, buyer: Seq<char>, price: int, token: Seq<char> },
}

impl View for VideoUploadedEvent {
    type V = Fact;

    open spec fn view(&self) -> Fact {
        Fact::Uploaded {
            video_id: self.video_id as int,
            uploader: self.uploader@,
            title: self.title@,
            price: self.price as int,
        }
    }
}

impl View for VideoPurchasedEvent {
    type V = Fact;

    open spec fn view(&self) -> Fact {
        Fact::Purchased {
            video_id: self.video_id as int,
            buyer: self.buyer@,
            price: self.price as int,
            token: self.token@,
        }
    }
}

impl View for Event {
    type V = Fact;

    open spec fn view(&self) -> Fact {
        match self {
            Event::Uploaded(event) => event@,
            Event::Purchased(event) => event@,
        }
    }
}

/// The append-only channel on which the ledger emits its facts, oldest
/// first.
#[derive(Debug)]
pub struct EventLog {
    entries: Vec<Event>,
}

impl View for EventLog {
    type V = Seq<Fact>;

    closed spec fn view(&self) -> Seq<Fact> {
        Seq::new(self.entries.len() as nat, |i: int| self.entries[i]@)
    }
}

impl EventLog {
    /// A channel on which nothing was emitted yet.
    pub fn new() -> (log: EventLog)
        ensures
            log@ == Seq::<Fact>::empty(),
    {
        EventLog { entries: Vec::new() }
    }

    /// The number of facts emitted so far.
    pub fn len(&self) -> (n: usize)
        ensures
            n == self@.len(),
    {
        self.entries.len()
    }

    /// The fact emitted at position `index`, counted from the oldest.
    pub fn get(&self, index: usize) -> (event: Option<&Event>)
        ensures
            match event {
                Some(e) => index < self@.len() && e@ == self@[index as int],
                None => index >= self@.len(),
            },
    {
        if index < self.entries.len() {
            Some(&self.entries[index])
        } else {
            None
        }
    }

    /// Emits `event` after all the facts emitted before.
    pub fn record(&mut self, event: Event)
        ensures
            final(self)@ == old(self)@.push(event@),
    {
        self.entries.push(event);
    }

    /// Hands the emitted facts over, oldest first.
    pub fn into_entries(self) -> (entries: Vec<Event>)
        ensures
            entries.len() == self@.len(),
            forall|i: int| 0 <= i < entries.len() ==> (#[trigger] entries[i])@ == self@[i],
    {
        self.entries
    }
}

} // verus!
