//! The mathematical model of the ledger: what it holds, what each call
//! answers, and what each call changes.

use vstd::prelude::*;
use crate::error::Error;
use crate::event::Fact;
use crate::identity::authenticated;
use crate::payment::{Payment, TransferView};
use crate::video::{VideoInfoView, VideoView};

verus! {

/// What the ledger holds. The video with id `n` stands at position `n - 1`
/// of `videos`, and the identities entitled to view it at the same position
/// of `viewers`.
#[verifier::ext_equal]
pub struct Ledger {
    pub owner: Option<Seq<char>>,
    pub videos: Seq<VideoView>,
    pub viewers: Seq<Set<Seq<char>>>,
}

/// A call that may change the ledger, with everything that decides what it
/// answers and what it changes. `signers` are the identities to which the
/// invocation is attributable.
pub enum Call {
    Initialize { signers: Set<Seq<char>>, owner: Seq<char> },
    Upload {
        signers: Set<Seq<char>>,
        uploader: Seq<char>,
        video_ipfs: Seq<char>,
        thumbnail_ipfs: Seq<char>,
        title: Seq<char>,
        description: Seq<char>,
        price: int,
        now: nat,
    },
    Buy { signers: Set<Seq<char>>, buyer: Seq<char>, id: int, token: Seq<char>, payment: Payment },
}

impl Ledger {
    /// The ledger before anything happened to it.
    pub open spec fn empty() -> Ledger {
        Ledger { owner: None, videos: Seq::empty(), viewers: Seq::empty() }
    }

    /// What holds of the ledger at all times: ids are `1, 2, 3, ...` without
    /// a gap, every record is valid, and every video has its set of viewers.
    pub open spec fn wf(self) -> bool {
        &&& self.viewers.len() == self.videos.len()
        &&& forall|i: int|
            0 <= i < self.videos.len() ==> (#[trigger] self.videos[i]).id == i + 1
                && self.videos[i].valid()
    }

    /// The number of videos uploaded so far.
    pub open spec fn count(self) -> int {
        self.videos.len() as int
    }

    /// The id that the next upload receives.
    pub open spec fn next_id(self) -> int {
        self.count() + 1
    }

    /// Whether a video is recorded under `id`.
    pub open spec fn has_video(self, id: int) -> bool {
        1 <= id <= self.count()
    }

    /// The record of the video `id`.
    pub open spec fn video(self, id: int) -> VideoView
        recommends
            self.has_video(id),
    {
        self.videos[id - 1]
    }

    /// Whether `viewer` is entitled to view the video `id`.
    pub open spec fn has_access(self, viewer: Seq<char>, id: int) -> bool {
        self.has_video(id) && self.viewers[id - 1].contains(viewer)
    }

    /// Whether a purchase of the video `id` by `buyer` is admitted, before
    /// any payment is asked for.
    pub open spec fn purchase_admitted(
        self,
        signers: Set<Seq<char>>,
        buyer: Seq<char>,
        id: int,
    ) -> Result<(), Error> {
        if authenticated(signers, buyer) is Err {
            Err(Error::Unauthorized)
        } else if id <= 0 {
            Err(Error::InvalidInput)
        } else if !self.has_video(id) {
            Err(Error::VideoNotFound)
        } else if self.has_access(buyer, id) {
            Err(Error::AlreadyPurchased)
        } else {
            Ok(())
        }
    }

    /// Whether `call` goes through on this ledger, and if not, why.
    pub open spec fn outcome(self, call: Call) -> Result<(), Error> {
        match call {
            Call::Initialize { signers, owner } => {
                if self.owner is Some {
                    Err(Error::Unauthorized)
                } else {
                    authenticated(signers, owner)
                }
            },
            Call::Upload { signers, uploader, video_ipfs, thumbnail_ipfs, title, price, .. } => {
                if authenticated(signers, uploader) is Err {
                    Err(Error::Unauthorized)
                } else if price < 0 {
                    Err(Error::InvalidPrice)
                } else if title.len() == 0 || video_ipfs.len() == 0 || thumbnail_ipfs.len() == 0 {
                    Err(Error::InvalidInput)
                } else {
                    Ok(())
                }
            },
            Call::Buy { signers, buyer, id, payment, .. } => {
                match self.purchase_admitted(signers, buyer, id) {
                    Ok(()) => if payment == Payment::Settled {
                        Ok(())
                    } else {
                        Err(Error::PaymentTransferFailed)
                    },
                    Err(e) => Err(e),
                }
            },
        }
    }

    /// The ledger after `video` was recorded: nobody is entitled to view it
    /// yet.
    pub open spec fn with_video(self, video: VideoView) -> Ledger {
        Ledger {
            videos: self.videos.push(video),
            viewers: self.viewers.push(Set::empty()),
            ..self
        }
    }

    /// The ledger after `buyer` was entitled to view the video `id`. Nothing
    /// changes if no such video is recorded, or if `buyer` is entitled
    /// already.
    pub open spec fn with_access(self, id: int, buyer: Seq<char>) -> Ledger {
        if self.has_video(id) {
            Ledger {
                viewers: self.viewers.update(id - 1, self.viewers[id - 1].insert(buyer)),
                ..self
            }
        } else {
            self
        }
    }

    /// The ledger after `call`. A call that is refused changes nothing.
    pub open spec fn after(self, call: Call) -> Ledger {
        if self.outcome(call) is Err {
            self
        } else {
            match call {
                Call::Initialize { owner, .. } => Ledger { owner: Some(owner), ..self },
                Call::Upload {
                    uploader,
                    video_ipfs,
                    thumbnail_ipfs,
                    title,
                    description,
                    price,
                    now,
                    ..
                } => self.with_video(
                    VideoView {
                        id: self.next_id(),
                        uploader,
                        video_ipfs,
                        thumbnail_ipfs,
                        title,
                        description,
                        price,
                        upload_timestamp: now,
                    },
                ),
                Call::Buy { buyer, id, .. } => self.with_access(id, buyer),
            }
        }
    }

    /// The facts that `call` emits on this ledger: one for an upload or a
    /// purchase that goes through, none otherwise.
    pub open spec fn facts(self, call: Call) -> Seq<Fact> {
        if self.outcome(call) is Err {
            Seq::empty()
        } else {
            match call {
                Call::Upload { uploader, title, price, .. } => seq![
                    Fact::Uploaded { video_id: self.next_id(), uploader, title, price },
                ],
                Call::Buy { buyer, id, token, .. } => seq![
                    Fact::Purchased { video_id: id, buyer, price: self.video(id).price, token },
                ],
                _ => Seq::empty(),
            }
        }
    }

    /// The ledger after each of `calls` in turn.
    pub open spec fn after_all(self, calls: Seq<Call>) -> Ledger
        decreases calls.len(),
    {
        if calls.len() == 0 {
            self
        } else {
            self.after_all(calls.drop_last()).after(calls.last())
        }
    }

    /// What a request for a quote answers: the payment that an admitted
    /// purchase takes is exactly the price of the video, in `token`, from
    /// `buyer` to the holding identity.
    pub open spec fn quote(
        self,
        signers: Set<Seq<char>>,
        buyer: Seq<char>,
        id: int,
        token: Seq<char>,
    ) -> Result<TransferView, Error> {
        match self.purchase_admitted(signers, buyer, id) {
            Ok(()) => Ok(
                TransferView::Deposit { token, payer: buyer, amount: self.video(id).price },
            ),
            Err(e) => Err(e),
        }
    }

    /// What a request to view the video `id` answers: its content locator
    /// and its thumbnail locator, for a viewer who is entitled to it.
    pub open spec fn view(self, signers: Set<Seq<char>>, viewer: Seq<char>, id: int) -> Result<
        (Seq<char>, Seq<char>),
        Error,
    > {
        if authenticated(signers, viewer) is Err {
            Err(Error::Unauthorized)
        } else if id <= 0 {
            Err(Error::InvalidInput)
        } else if !self.has_access(viewer, id) {
            Err(Error::AccessDenied)
        } else {
            Ok((self.video(id).video_ipfs, self.video(id).thumbnail_ipfs))
        }
    }

    /// What a request to withdraw answers: the payout that an admitted
    /// withdrawal takes is `amount` of `token` from the holding identity to
    /// `uploader`.
    pub open spec fn withdraw(
        signers: Set<Seq<char>>,
        uploader: Seq<char>,
        token: Seq<char>,
        amount: int,
    ) -> Result<TransferView, Error> {
        if authenticated(signers, uploader) is Err {
            Err(Error::Unauthorized)
        } else if amount <= 0 {
            Err(Error::InvalidInput)
        } else {
            Ok(TransferView::Payout { token, payee: uploader, amount })
        }
    }

    /// What a query for the metadata of the video `id` answers.
    pub open spec fn video_info(self, id: int) -> Result<VideoInfoView, Error> {
        if id <= 0 {
            Err(Error::InvalidInput)
        } else if !self.has_video(id) {
            Err(Error::VideoNotFound)
        } else {
            Ok(self.video(id).info())
        }
    }

    /// The metadata of every video, by ascending id.
    pub open spec fn infos(self) -> Seq<VideoInfoView> {
        self.videos.map_values(|video: VideoView| video.info())
    }

    /// The metadata of the videos whose id is at least `start` and less than
    /// both `start + limit` and the next free id, by ascending id.
    pub open spec fn page(self, start: int, limit: int) -> Seq<VideoInfoView> {
        let first = if start < 1 {
            1
        } else {
            start
        };
        let end = if start + limit < self.next_id() {
            start + limit
        } else {
            self.next_id()
        };
        if first < end {
            self.infos().subrange(first - 1, end - 1)
        } else {
            Seq::empty()
        }
    }

    /// The metadata of the videos that `uploader` uploaded, by ascending id.
    pub open spec fn uploaded_by(self, uploader: Seq<char>) -> Seq<VideoInfoView> {
        self.infos().filter(|info: VideoInfoView| info.uploader == uploader)
    }

    /// The ids of all videos, ascending.
    pub open spec fn ids(self) -> Seq<int> {
        Seq::new(self.videos.len(), |i: int| i + 1)
    }

    /// The ids of the videos that `buyer` is entitled to view, ascending.
    pub open spec fn purchased_by(self, buyer: Seq<char>) -> Seq<int> {
        self.ids().filter(|id: int| self.has_access(buyer, id))
    }
}

} // verus!
