//! The ledger itself: the catalog, the access sets and the operations on
//! them.

use vstd::prelude::*;
use crate::error::Error;
use crate::event::{Event, EventLog, Fact, VideoPurchasedEvent, VideoUploadedEvent};
use crate::identity::{all_distinct, distinct, keys, listed, Authorization, Identity};
use crate::model::{Call, Ledger};
use crate::payment::{Payment, Transfer, TransferView};
use crate::video::{info_views, Video, VideoInfo, VideoInfoView};

verus! {

/// The state of the pay-to-view ledger: who owns it, the videos uploaded to
/// it, and who paid to view each of them.
///
/// The ledger checks and records; it moves no funds and verifies no
/// signatures. Whoever drives it says in an [`Authorization`] to whom the
/// invocation is attributable, carries out the [`Transfer`] that `quote` or
/// `withdraw` names, and reports in a [`Payment`] how that went.
pub struct PayToViewContract {
    owner: Option<Identity>,
    next_id: i64,
    videos: Vec<Video>,
    buyers: Vec<Vec<Identity>>,
}

/// Whether `videos` and `buyers` are what a ledger can hold: the record at
/// position `i` has the id `i + 1` and is valid, the ids are `i64`, every
/// video has its list of buyers, and no list names a buyer twice.
pub open spec fn restorable(videos: Seq<Video>, buyers: Seq<Vec<Identity>>) -> bool {
    &&& videos.len() < i64::MAX
    &&& buyers.len() == videos.len()
    &&& forall|i: int|
        0 <= i < videos.len() ==> (#[trigger] videos[i]).id == i + 1 && videos[i]@.valid()
    &&& forall|i: int| 0 <= i < buyers.len() ==> distinct((#[trigger] buyers[i])@)
}

/// The ledger that `owner`, `videos` and `buyers` make up.
pub open spec fn restored(
    owner: Option<Identity>,
    videos: Seq<Video>,
    buyers: Seq<Vec<Identity>>,
) -> Ledger {
    Ledger {
        owner: match owner {
            Some(owner) => Some(owner@),
            None => None,
        },
        videos: videos.map_values(|video: Video| video@),
        viewers: buyers.map_values(|list: Vec<Identity>| keys(list@)),
    }
}

impl PayToViewContract {
    /// What the ledger holds, as a mathematical value.
    pub closed spec fn ledger(&self) -> Ledger {
        restored(self.owner, self.videos@, self.buyers@)
    }

    /// Whether the stored state is consistent: the counter is one more than
    /// the number of records, and records and buyers are what a ledger can
    /// hold. Every constructor establishes it and every operation keeps it.
    pub closed spec fn wf(&self) -> bool {
        &&& self.next_id == self.videos.len() + 1
        &&& restorable(self.videos@, self.buyers@)
    }

    /// A consistent state holds a well-formed ledger, whose next id is an
    /// `i64`.
    pub proof fn lemma_wf_ledger(&self)
        requires
            self.wf(),
        ensures
            self.ledger().wf(),
            self.ledger().next_id() <= i64::MAX,
    {
    }

    /// A ledger that nobody owns and that holds no video.
    pub fn new() -> (contract: PayToViewContract)
        ensures
            contract.wf(),
            contract.ledger() == Ledger::empty(),
    {
        PayToViewContract { owner: None, next_id: 1, videos: Vec::new(), buyers: Vec::new() }
    }

    /// Takes up the state that `into_parts` handed out, if it is what a
    /// ledger can hold.
    pub fn restore(owner: Option<Identity>, videos: Vec<Video>, buyers: Vec<Vec<Identity>>) -> (found:
        Option<PayToViewContract>)
        ensures
            match found {
                Some(contract) => {
                    &&& restorable(videos@, buyers@)
                    &&& contract.wf()
                    &&& contract.ledger() == restored(owner, videos@, buyers@)
                },
                None => !restorable(videos@, buyers@),
            },
    {
        if videos.len() as u128 >= i64::MAX as u128 || buyers.len() != videos.len() {
            return None;
        }
        let mut i: usize = 0;
        while i < videos.len()
            invariant
                i <= videos.len() < i64::MAX,
                buyers.len() == videos.len(),
                forall|k: int|
                    0 <= k < i ==> (#[trigger] videos[k]).id == k + 1 && videos[k]@.valid(),
                forall|k: int| 0 <= k < i ==> distinct((#[trigger] buyers[k])@),
            decreases videos.len() - i,
        {
            let video = &videos[i];
            if video.id != i as i64 + 1 || video.price < 0 || video.title.as_str().is_empty()
                || video.video_ipfs.as_str().is_empty() || video.thumbnail_ipfs.as_str().is_empty() {
                return None;
            }
            if !all_distinct(&buyers[i]) {
                return None;
            }
            i += 1;
        }
        let next_id = videos.len() as i64 + 1;
        Some(PayToViewContract { owner, next_id, videos, buyers })
    }

    /// Hands out the state for safekeeping: the owner, the records by
    /// ascending id, and for each record the identities entitled to view it,
    /// each once. `restore` takes it up again.
    pub fn into_parts(self) -> (parts: (Option<Identity>, Vec<Video>, Vec<Vec<Identity>>))
        requires
            self.wf(),
        ensures
            restorable(parts.1@, parts.2@),
            restored(parts.0, parts.1@, parts.2@) == self.ledger(),
    {
        (self.owner, self.videos, self.buyers)
    }

    /// Makes `owner` the owner of a ledger that has none. A second call is
    /// refused; it is not a silent success. The id counter is not touched:
    /// on a ledger without uploads the next id is 1.
    pub fn initialize(&mut self, auth: &Authorization, owner: Identity) -> (outcome: Result<
        (),
        Error,
    >)
        requires
            old(self).wf(),
        ensures
            final(self).wf(),
            ({
                let call = (Call::Initialize { signers: auth@, owner: owner@ });
                &&& outcome == old(self).ledger().outcome(call)
                &&& final(self).ledger() == old(self).ledger().after(call)
            }),
    {
        if self.owner.is_some() {
            return Err(Error::Unauthorized);
        }
        if let Err(e) = auth.authenticate(&owner) {
            return Err(e);
        }
        self.owner = Some(owner);
        Ok(())
    }

    /// The number of videos uploaded so far.
    pub fn get_video_count(&self) -> (count: i64)
        requires
            self.wf(),
        ensures
            count == self.ledger().count(),
    {
        self.next_id - 1
    }

    /// The position of the record of the video `video_id`, if there is one.
    fn position(&self, video_id: i64) -> (at: Option<usize>)
        requires
            self.wf(),
        ensures
            match at {
                Some(i) => self.ledger().has_video(video_id as int) && i == video_id - 1,
                None => !self.ledger().has_video(video_id as int),
            },
    {
        if video_id >= 1 && video_id < self.next_id {
            Some((video_id - 1) as usize)
        } else {
            None
        }
    }

    /// The metadata of the video `video_id`. Metadata is free: no access
    /// grant is asked for.
    pub fn get_video_info(&self, video_id: i64) -> (outcome: Result<VideoInfo, Error>)
        requires
            self.wf(),
        ensures
            match outcome {
                Ok(info) => self.ledger().video_info(video_id as int) == Ok::<VideoInfoView, Error>(
                    info@,
                ),
                Err(e) => self.ledger().video_info(video_id as int) == Err::<VideoInfoView, Error>(
                    e,
                ),
            },
    {
        if video_id <= 0 {
            return Err(Error::InvalidInput);
        }
        match self.position(video_id) {
            Some(i) => Ok(self.videos[i].info()),
            None => Err(Error::VideoNotFound),
        }
    }

    /// One page of metadata: the videos whose id is at least `start` and
    /// less than both `start + limit` and the next free id, by ascending id.
    /// A page that starts beyond the last video is empty.
    pub fn get_all_videos(&self, start: i64, limit: i64) -> (page: Vec<VideoInfo>)
        requires
            self.wf(),
        ensures
            info_views(page@) == self.ledger().page(start as int, limit as int),
    {
        let mut page: Vec<VideoInfo> = Vec::new();
        let past: i128 = start as i128 + limit as i128;
        let end: i128 = if past < self.next_id as i128 {
            past
        } else {
            self.next_id as i128
        };
        let first: i128 = if start < 1 {
            1
        } else {
            start as i128
        };
        if first >= end {
            return page;
        }
        let from: usize = (first - 1) as usize;
        let to: usize = (end - 1) as usize;
        let mut i: usize = from;
        while i < to
            invariant
                self.wf(),
                from <= i <= to <= self.videos.len(),
                info_views(page@) == self.ledger().infos().subrange(from as int, i as int),
            decreases to - i,
        {
            let ghost before = info_views(page@);
            page.push(self.videos[i].info());
            assert(info_views(page@) =~= before.push(self.ledger().infos()[i as int]));
            i += 1;
        }
        page
    }

    /// Whether `viewer` is entitled to view the video `video_id`. An id
    /// under which nothing is recorded entitles nobody.
    pub fn has_access(&self, viewer: &Identity, video_id: i64) -> (entitled: bool)
        requires
            self.wf(),
        ensures
            entitled == self.ledger().has_access(viewer@, video_id as int),
    {
        match self.position(video_id) {
            Some(i) => listed(&self.buyers[i], viewer),
            None => false,
        }
    }

    /// Records a new video for `uploader` under the next free id, emits the
    /// fact, and returns the id. `now` is the time of the upload. The ids of
    /// a ledger are `i64`: the caller sees to it that one is left.
    pub fn upload(
        &mut self,
        auth: &Authorization,
        log: &mut EventLog,
        uploader: Identity,
        video_ipfs: String,
        thumbnail_ipfs: String,
        title: String,
        description: String,
        price: i128,
        now: u64,
    ) -> (outcome: Result<i64, Error>)
        requires
            old(self).wf(),
            old(self).ledger().next_id() < i64::MAX,
        ensures
            final(self).wf(),
            ({
                let call = (Call::Upload {
                    signers: auth@,
                    uploader: uploader@,
                    video_ipfs: video_ipfs@,
                    thumbnail_ipfs: thumbnail_ipfs@,
                    title: title@,
                    description: description@,
                    price: price as int,
                    now: now as nat,
                });
                &&& match outcome {
                    Ok(id) => old(self).ledger().outcome(call) is Ok && id == old(
                        self,
                    ).ledger().next_id(),
                    Err(e) => old(self).ledger().outcome(call) == Err::<(), Error>(e),
                }
                &&& final(self).ledger() == old(self).ledger().after(call)
                &&& final(log)@ == old(log)@ + old(self).ledger().facts(call)
            }),
    {
        if let Err(e) = auth.authenticate(&uploader) {
            return Err(e);
        }
        if price < 0 {
            return Err(Error::InvalidPrice);
        }
        if title.as_str().is_empty() || video_ipfs.as_str().is_empty()
            || thumbnail_ipfs.as_str().is_empty() {
            return Err(Error::InvalidInput);
        }
        let id = self.next_id;
        let event = VideoUploadedEvent {
            video_id: id,
            uploader: uploader.clone(),
            title: title.clone(),
            price,
        };
        let video = Video {
            id,
            uploader,
            video_ipfs,
            thumbnail_ipfs,
            title,
            description,
            price,
            upload_timestamp: now,
        };
        self.videos.push(video);
        self.buyers.push(Vec::new());
        self.next_id = id + 1;
        log.record(Event::Uploaded(event));
        proof {
            let last = old(self).buyers.len() as int;
            assert(keys(self.buyers[last]@) =~= Set::<Seq<char>>::empty());
        }
        Ok(id)
    }

    /// Admits or refuses a purchase of the video `video_id` by `buyer`, and
    /// names the payment that an admitted purchase takes. Nothing is granted
    /// here: the grant follows the payment, in `buy`.
    pub fn quote(
        &self,
        auth: &Authorization,
        buyer: &Identity,
        video_id: i64,
        token_id: &Identity,
    ) -> (outcome: Result<Transfer, Error>)
        requires
            self.wf(),
        ensures
            match outcome {
                Ok(transfer) => self.ledger().quote(auth@, buyer@, video_id as int, token_id@)
                    == Ok::<TransferView, Error>(transfer@),
                Err(e) => self.ledger().quote(auth@, buyer@, video_id as int, token_id@) == Err::<
                    TransferView,
                    Error,
                >(e),
            },
    {
        match self.admit_purchase(auth, buyer, video_id) {
            Ok(at) => Ok(
                Transfer::Deposit {
                    token: token_id.clone(),
                    payer: buyer.clone(),
                    amount: self.videos[at].price,
                },
            ),
            Err(e) => Err(e),
        }
    }

    /// Admits or refuses a purchase, and finds the record of the video.
    fn admit_purchase(&self, auth: &Authorization, buyer: &Identity, video_id: i64) -> (outcome:
        Result<usize, Error>)
        requires
            self.wf(),
        ensures
            match outcome {
                Ok(at) => {
                    &&& self.ledger().purchase_admitted(auth@, buyer@, video_id as int) is Ok
                    &&& at == video_id - 1
                },
                Err(e) => self.ledger().purchase_admitted(auth@, buyer@, video_id as int) == Err::<
                    (),
                    Error,
                >(e),
            },
    {
        if let Err(e) = auth.authenticate(buyer) {
            return Err(e);
        }
        if video_id <= 0 {
            return Err(Error::InvalidInput);
        }
        let at = match self.position(video_id) {
            Some(i) => i,
            None => {
                return Err(Error::VideoNotFound);
            },
        };
        if listed(&self.buyers[at], buyer) {
            return Err(Error::AlreadyPurchased);
        }
        Ok(at)
    }

    /// Carries a purchase through once the payment collaborator has answered
    /// the transfer that `quote` asked for: a settled payment is turned into
    /// an access grant and a fact, a failed one into nothing at all. A
    /// purchase that `quote` refuses is refused here for the same reason,
    /// whatever `payment` says.
    pub fn buy(
        &mut self,
        auth: &Authorization,
        log: &mut EventLog,
        buyer: &Identity,
        video_id: i64,
        token_id: &Identity,
        payment: Payment,
    ) -> (outcome: Result<(), Error>)
        requires
            old(self).wf(),
        ensures
            final(self).wf(),
            ({
                let call = (Call::Buy {
                    signers: auth@,
                    buyer: buyer@,
                    id: video_id as int,
                    token: token_id@,
                    payment,
                });
                &&& outcome == old(self).ledger().outcome(call)
                &&& final(self).ledger() == old(self).ledger().after(call)
                &&& final(log)@ == old(log)@ + old(self).ledger().facts(call)
            }),
    {
        let at = match self.admit_purchase(auth, buyer, video_id) {
            Ok(at) => at,
            Err(e) => {
                return Err(e);
            },
        };
        match payment {
            Payment::Failed => {
                Err(Error::PaymentTransferFailed)
            },
            Payment::Settled => {
                let event = VideoPurchasedEvent {
                    video_id,
                    buyer: buyer.clone(),
                    price: self.videos[at].price,
                    token: token_id.clone(),
                };
                if self.grant_access(video_id, buyer) {
                    log.record(Event::Purchased(event));
                }
                Ok(())
            },
        }
    }

    /// Hands the content and thumbnail locators of the video `video_id` to a
    /// viewer who holds an access grant for it.
    pub fn view(&self, auth: &Authorization, viewer: &Identity, video_id: i64) -> (outcome: Result<
        (String, String),
        Error,
    >)
        requires
            self.wf(),
        ensures
            match outcome {
                Ok(locators) => self.ledger().view(auth@, viewer@, video_id as int) == Ok::<
                    (Seq<char>, Seq<char>),
                    Error,
                >((locators.0@, locators.1@)),
                Err(e) => self.ledger().view(auth@, viewer@, video_id as int) == Err::<
                    (Seq<char>, Seq<char>),
                    Error,
                >(e),
            },
    {
        if let Err(e) = auth.authenticate(viewer) {
            return Err(e);
        }
        if video_id <= 0 {
            return Err(Error::InvalidInput);
        }
        if !self.has_access(viewer, video_id) {
            return Err(Error::AccessDenied);
        }
        match self.position(video_id) {
            Some(i) => Ok(
                (self.videos[i].video_ipfs.clone(), self.videos[i].thumbnail_ipfs.clone()),
            ),
            None => Err(Error::VideoNotFound),
        }
    }

    /// The metadata of the videos that `uploader` uploaded, by ascending id.
    pub fn get_user_videos(&self, uploader: &Identity) -> (found: Vec<VideoInfo>)
        requires
            self.wf(),
        ensures
            info_views(found@) == self.ledger().uploaded_by(uploader@),
    {
        let mut found: Vec<VideoInfo> = Vec::new();
        let ghost by_uploader = |info: VideoInfoView| info.uploader == uploader@;
        let mut i: usize = 0;
        while i < self.videos.len()
            invariant
                self.wf(),
                i <= self.videos.len(),
                by_uploader == |info: VideoInfoView| info.uploader == uploader@,
                info_views(found@) == self.ledger().infos().take(i as int).filter(by_uploader),
            decreases self.videos.len() - i,
        {
            if self.videos[i].uploader == *uploader {
                found.push(self.videos[i].info());
            }
            proof {
                let infos = self.ledger().infos();
                let longer = infos.take(i + 1);
                assert(longer.drop_last() =~= infos.take(i as int));
                reveal(Seq::filter);
            }
            i += 1;
        }
        assert(self.ledger().infos().take(i as int) =~= self.ledger().infos());
        found
    }

    /// The ids of the videos that `buyer` is entitled to view, ascending.
    pub fn get_purchased_videos(&self, buyer: &Identity) -> (found: Vec<i64>)
        requires
            self.wf(),
        ensures
            found@.map_values(|id: i64| id as int) == self.ledger().purchased_by(buyer@),
    {
        let mut found: Vec<i64> = Vec::new();
        let ghost entitled = |id: int| self.ledger().has_access(buyer@, id);
        let ghost widen = |id: i64| id as int;
        let mut i: usize = 0;
        while i < self.buyers.len()
            invariant
                self.wf(),
                i <= self.buyers.len(),
                entitled == |id: int| self.ledger().has_access(buyer@, id),
                widen == |id: i64| id as int,
                found@.map_values(widen) == self.ledger().ids().take(i as int).filter(entitled),
            decreases self.buyers.len() - i,
        {
            if listed(&self.buyers[i], buyer) {
                found.push(self.videos[i].id);
            }
            proof {
                let ids = self.ledger().ids();
                let longer = ids.take(i + 1);
                assert(longer.drop_last() =~= ids.take(i as int));
                reveal(Seq::filter);
            }
            i += 1;
        }
        assert(self.ledger().ids().take(i as int) =~= self.ledger().ids());
        found
    }

    /// Admits or refuses a withdrawal by `uploader`, and names the payout
    /// that an admitted withdrawal takes. No earnings are tracked: any
    /// authenticated identity may ask for any positive amount, whatever it
    /// sold.
    pub fn withdraw(
        &self,
        auth: &Authorization,
        uploader: &Identity,
        token_id: &Identity,
        amount: i128,
    ) -> (outcome: Result<Transfer, Error>)
        ensures
            match outcome {
                Ok(transfer) => Ledger::withdraw(auth@, uploader@, token_id@, amount as int)
                    == Ok::<TransferView, Error>(transfer@),
                Err(e) => Ledger::withdraw(auth@, uploader@, token_id@, amount as int) == Err::<
                    TransferView,
                    Error,
                >(e),
            },
    {
        if let Err(e) = auth.authenticate(uploader) {
            return Err(e);
        }
        if amount <= 0 {
            return Err(Error::InvalidInput);
        }
        Ok(Transfer::Payout { token: token_id.clone(), payee: uploader.clone(), amount })
    }

    /// Entitles `buyer` to view the video `video_id`, and says whether that
    /// was news: granting twice is granting once. This step asks for no
    /// payment and emits no fact; `buy` takes it after a settled payment, and
    /// emits the fact if the grant was news.
    fn grant_access(&mut self, video_id: i64, buyer: &Identity) -> (fresh: bool)
        requires
            old(self).wf(),
        ensures
            final(self).wf(),
            final(self).ledger() == old(self).ledger().with_access(video_id as int, buyer@),
            fresh == (old(self).ledger().has_video(video_id as int) && !old(
                self,
            ).ledger().has_access(buyer@, video_id as int)),
    {
        match self.position(video_id) {
            Some(i) => {
                if listed(&self.buyers[i], buyer) {
                    proof {
                        let set = old(self).ledger().viewers[i as int];
                        assert(set.insert(buyer@) =~= set);
                    }
                    false
                } else {
                    self.buyers[i].push(buyer.clone());
                    proof {
                        let before = old(self).buyers[i as int]@;
                        let after = self.buyers[i as int]@;
                        assert(keys(after) =~= keys(before).insert(buyer@)) by {
                            assert forall|key: Seq<char>|
                                keys(before).insert(buyer@).contains(key) implies keys(
                                after,
                            ).contains(key) by {
                                if key == buyer@ {
                                    assert(after[before.len() as int]@ == key);
                                } else {
                                    let j = choose|j: int|
                                        0 <= j < before.len() && #[trigger] before[j]@ == key;
                                    assert(after[j]@ == key);
                                }
                            }
                        }
                    }
                    true
                }
            },
            None => false,
        }
    }
}

} // verus!
