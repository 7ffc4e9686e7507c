//! What holds of the ledger whatever is asked of it, in whatever order:
//! stated here over the model, and proved.

use vstd::prelude::*;
use crate::error::Error;
use crate::event::Fact;
use crate::model::{Call, Ledger};
use crate::payment::{Payment, TransferView};
use crate::video::VideoInfoView;

verus! {

impl Call {
    /// Whether the call, if it goes through, entitles `viewer` to view the
    /// video `id`.
    pub open spec fn entitles(self, viewer: Seq<char>, id: int) -> bool {
        match self {
            Call::Buy { buyer, id: bought, .. } => buyer == viewer && bought == id,
            _ => false,
        }
    }
}

impl Ledger {
    /// The number of uploads among `calls` that go through when the calls
    /// are made in turn on this ledger.
    pub open spec fn uploads(self, calls: Seq<Call>) -> nat
        decreases calls.len(),
    {
        if calls.len() == 0 {
            0
        } else {
            let earlier = self.uploads(calls.drop_last());
            let met = self.after_all(calls.drop_last());
            if calls.last() is Upload && met.outcome(calls.last()) is Ok {
                earlier + 1
            } else {
                earlier
            }
        }
    }
}

/// The empty ledger is well formed: it holds no video, the first id is 1,
/// and nobody is entitled to anything.
pub proof fn lemma_empty_ledger(viewer: Seq<char>, id: int)
    ensures
        Ledger::empty().wf(),
        Ledger::empty().count() == 0,
        Ledger::empty().next_id() == 1,
        !Ledger::empty().has_access(viewer, id),
{
}

/// No call breaks the ledger: after it the ids are still `1, 2, 3, ...`
/// without a gap, every record is valid, and every video has its set of
/// viewers.
pub proof fn lemma_call_keeps_wf(ledger: Ledger, call: Call)
    requires
        ledger.wf(),
    ensures
        ledger.after(call).wf(),
{
}

/// No sequence of calls breaks the ledger.
pub proof fn lemma_calls_keep_wf(ledger: Ledger, calls: Seq<Call>)
    requires
        ledger.wf(),
    ensures
        ledger.after_all(calls).wf(),
    decreases calls.len(),
{
    if calls.len() > 0 {
        lemma_calls_keep_wf(ledger, calls.drop_last());
        lemma_call_keeps_wf(ledger.after_all(calls.drop_last()), calls.last());
    }
}

/// A call that is refused changes nothing and emits nothing.
pub proof fn lemma_refused_call_changes_nothing(ledger: Ledger, call: Call)
    requires
        ledger.outcome(call) is Err,
    ensures
        ledger.after(call) == ledger,
        ledger.facts(call) == Seq::<Fact>::empty(),
{
}

/// The count of videos is the number of uploads that went through: after
/// any sequence of calls it has grown by exactly that number.
pub proof fn lemma_count_is_number_of_uploads(ledger: Ledger, calls: Seq<Call>)
    requires
        ledger.wf(),
    ensures
        ledger.after_all(calls).count() == ledger.count() + ledger.uploads(calls),
    decreases calls.len(),
{
    if calls.len() > 0 {
        lemma_count_is_number_of_uploads(ledger, calls.drop_last());
        lemma_calls_keep_wf(ledger, calls.drop_last());
    }
}

/// Ids are handed out in call order, without a gap: the upload that goes
/// through as call number `k` receives the id that follows the count of the
/// ledger at the start and the uploads that went through before it. On a
/// ledger that starts empty the ids are 1, 2, 3, ... .
pub proof fn lemma_upload_ids_count_up(ledger: Ledger, calls: Seq<Call>, k: int)
    requires
        ledger.wf(),
        0 <= k < calls.len(),
        calls[k] is Upload,
        ledger.after_all(calls.take(k)).outcome(calls[k]) is Ok,
    ensures
        ledger.after_all(calls.take(k)).next_id() == ledger.count() + ledger.uploads(
            calls.take(k),
        ) + 1,
        ledger.after_all(calls.take(k + 1)).count() == ledger.after_all(calls.take(k)).count() + 1,
{
    lemma_count_is_number_of_uploads(ledger, calls.take(k));
    assert(calls.take(k + 1).drop_last() =~= calls.take(k));
}

/// On a ledger that starts empty, the uploads that go through receive the
/// ids 1, 2, 3, ... in call order, whatever else is called in between, and
/// the count of videos is the number of uploads that went through.
pub proof fn lemma_ids_start_at_one(calls: Seq<Call>, k: int)
    requires
        0 <= k < calls.len(),
        calls[k] is Upload,
        Ledger::empty().after_all(calls.take(k)).outcome(calls[k]) is Ok,
    ensures
        Ledger::empty().after_all(calls.take(k)).next_id() == Ledger::empty().uploads(
            calls.take(k),
        ) + 1,
        Ledger::empty().after_all(calls).count() == Ledger::empty().uploads(calls),
{
    lemma_upload_ids_count_up(Ledger::empty(), calls, k);
    lemma_count_is_number_of_uploads(Ledger::empty(), calls);
}

/// A record never changes once it is there: whatever is called, the video
/// `id` stays recorded as it was.
pub proof fn lemma_records_are_kept(ledger: Ledger, calls: Seq<Call>, id: int)
    requires
        ledger.wf(),
        ledger.has_video(id),
    ensures
        ledger.after_all(calls).has_video(id),
        ledger.after_all(calls).video(id) == ledger.video(id),
    decreases calls.len(),
{
    if calls.len() > 0 {
        lemma_records_are_kept(ledger, calls.drop_last(), id);
        lemma_calls_keep_wf(ledger, calls.drop_last());
    }
}

/// An access grant is never taken back: whoever is entitled to view a video
/// stays entitled, whatever is called.
pub proof fn lemma_access_is_kept(ledger: Ledger, calls: Seq<Call>, viewer: Seq<char>, id: int)
    requires
        ledger.wf(),
        ledger.has_access(viewer, id),
    ensures
        ledger.after_all(calls).has_access(viewer, id),
    decreases calls.len(),
{
    if calls.len() > 0 {
        lemma_access_is_kept(ledger, calls.drop_last(), viewer, id);
        lemma_calls_keep_wf(ledger, calls.drop_last());
    }
}

/// Access comes from a purchase and from nothing else: a viewer who was not
/// entitled to a video is not entitled to it after calls of which none is a
/// purchase of that video by that viewer. In particular nobody is entitled
/// to a video that was just uploaded.
pub proof fn lemma_no_access_before_purchase(
    ledger: Ledger,
    calls: Seq<Call>,
    viewer: Seq<char>,
    id: int,
)
    requires
        ledger.wf(),
        !ledger.has_access(viewer, id),
        forall|k: int| 0 <= k < calls.len() ==> !(#[trigger] calls[k]).entitles(viewer, id),
    ensures
        !ledger.after_all(calls).has_access(viewer, id),
    decreases calls.len(),
{
    if calls.len() > 0 {
        let earlier = calls.drop_last();
        assert forall|k: int| 0 <= k < earlier.len() implies !(#[trigger] earlier[k]).entitles(
            viewer,
            id,
        ) by {
        }
        lemma_no_access_before_purchase(ledger, earlier, viewer, id);
        lemma_calls_keep_wf(ledger, earlier);
    }
}

/// On a ledger that starts empty, nobody is entitled to view a video before
/// somebody bought it.
pub proof fn lemma_no_access_on_a_fresh_ledger(calls: Seq<Call>, viewer: Seq<char>, id: int)
    requires
        forall|k: int| 0 <= k < calls.len() ==> !(#[trigger] calls[k] is Buy && calls[k]->id == id),
    ensures
        !Ledger::empty().after_all(calls).has_access(viewer, id),
{
    lemma_no_access_before_purchase(Ledger::empty(), calls, viewer, id);
}

/// A purchase that goes through entitles the buyer at once, emits exactly
/// one fact, and entitles nobody else to anything. It goes through only for
/// a buyer who was not entitled yet and whose payment settled.
pub proof fn lemma_buy_gives_access(ledger: Ledger, purchase: Call)
    requires
        ledger.wf(),
        purchase is Buy,
        ledger.outcome(purchase) is Ok,
    ensures
        !ledger.has_access(purchase->buyer, purchase->id),
        purchase->payment == Payment::Settled,
        ledger.after(purchase).has_access(purchase->buyer, purchase->id),
        ledger.facts(purchase).len() == 1,
        forall|other: Seq<char>, video: int|
            !purchase.entitles(other, video) ==> (ledger.after(purchase).has_access(other, video)
                <==> ledger.has_access(other, video)),
{
}

/// Nobody pays twice: once a purchase went through, a second quote for the
/// same buyer and video is refused as already purchased, so that no second
/// payment is asked for, and a second purchase is refused in the same way,
/// changes nothing and emits nothing. The buyer stays entitled.
pub proof fn lemma_second_buy_is_refused(
    ledger: Ledger,
    first: Call,
    second: Call,
    token: Seq<char>,
)
    requires
        ledger.wf(),
        first is Buy,
        ledger.outcome(first) is Ok,
        second is Buy,
        second->buyer == first->buyer,
        second->id == first->id,
        second->Buy_signers.contains(second->buyer),
    ensures
        ({
            let bought = ledger.after(first);
            &&& bought.quote(second->Buy_signers, second->buyer, second->id, token) == Err::<
                TransferView,
                Error,
            >(Error::AlreadyPurchased)
            &&& bought.outcome(second) == Err::<(), Error>(Error::AlreadyPurchased)
            &&& bought.after(second) == bought
            &&& bought.facts(second) == Seq::<Fact>::empty()
            &&& bought.has_access(first->buyer, first->id)
        }),
{
}

/// A quote and the purchase that follows it agree: on one ledger a quote is
/// given exactly when the purchase goes through once its payment settled,
/// and both are refused for the same reason. A payment that failed entitles
/// nobody.
pub proof fn lemma_quote_and_buy_agree(ledger: Ledger, purchase: Call)
    requires
        purchase is Buy,
    ensures
        ({
            let quote = ledger.quote(
                purchase->Buy_signers,
                purchase->buyer,
                purchase->id,
                purchase->token,
            );
            let outcome = ledger.outcome(purchase);
            match quote {
                Ok(due) => if purchase->payment == Payment::Settled {
                    outcome is Ok
                } else {
                    outcome == Err::<(), Error>(Error::PaymentTransferFailed) && ledger.after(
                        purchase,
                    ) == ledger
                },
                Err(refusal) => outcome == Err::<(), Error>(refusal),
            }
        }),
{
}

/// A viewer without an access grant is denied, and a viewer with one is
/// handed the very locators that were uploaded, whatever was called in
/// between.
pub proof fn lemma_view_hands_out_uploaded_locators(
    ledger: Ledger,
    upload: Call,
    calls: Seq<Call>,
    signers: Set<Seq<char>>,
    viewer: Seq<char>,
)
    requires
        ledger.wf(),
        upload is Upload,
        ledger.outcome(upload) is Ok,
        signers.contains(viewer),
    ensures
        ({
            let id = ledger.next_id();
            let later = ledger.after(upload).after_all(calls);
            later.view(signers, viewer, id) == if later.has_access(viewer, id) {
                Ok::<(Seq<char>, Seq<char>), Error>((upload->video_ipfs, upload->thumbnail_ipfs))
            } else {
                Err::<(Seq<char>, Seq<char>), Error>(Error::AccessDenied)
            }
        }),
{
    lemma_call_keeps_wf(ledger, upload);
    lemma_records_are_kept(ledger.after(upload), calls, ledger.next_id());
}

/// The owner is set once: whoever owns the ledger owns it whatever is
/// called.
pub proof fn lemma_owner_is_set_once(ledger: Ledger, calls: Seq<Call>)
    requires
        ledger.owner is Some,
    ensures
        ledger.after_all(calls).owner == ledger.owner,
    decreases calls.len(),
{
    if calls.len() > 0 {
        lemma_owner_is_set_once(ledger, calls.drop_last());
    }
}

/// A page holds one video after the other, from the later of `start` and 1
/// on, and ends before `start + limit` and with the last video. A page
/// that starts beyond the count, or that has no room, is empty.
pub proof fn lemma_page_holds_consecutive_videos(ledger: Ledger, start: int, limit: int)
    requires
        ledger.wf(),
    ensures
        ({
            let page = ledger.page(start, limit);
            let first = if start < 1 {
                1
            } else {
                start
            };
            &&& page.len() <= ledger.count()
            &&& limit >= 0 ==> page.len() <= limit
            &&& start > ledger.count() || limit <= 0 ==> page.len() == 0
            &&& 1 <= start <= ledger.count() && limit >= 0 ==> page.len() == if start + limit
                <= ledger.count() {
                limit
            } else {
                ledger.count() - start + 1
            }
            &&& forall|k: int|
                0 <= k < page.len() ==> ledger.has_video(first + k) && #[trigger] page[k]
                    == ledger.video(first + k).info() && page[k].id == first + k
        }),
{
}

/// Filtering a sequence whose keys ascend leaves a sequence whose keys
/// ascend, made of exactly those of its members that meet the condition.
proof fn lemma_filter_ascending<A>(s: Seq<A>, pred: spec_fn(A) -> bool, key: spec_fn(A) -> int)
    requires
        forall|i: int, j: int| 0 <= i < j < s.len() ==> key(s[i]) < key(s[j]),
    ensures
        forall|i: int, j: int|
            0 <= i < j < s.filter(pred).len() ==> key(s.filter(pred)[i]) < key(s.filter(pred)[j]),
        forall|k: int|
            0 <= k < s.filter(pred).len() ==> pred(#[trigger] s.filter(pred)[k]) && s.contains(
                s.filter(pred)[k],
            ),
        forall|at: int|
            0 <= at < s.len() && pred(s[at]) ==> s.filter(pred).contains(#[trigger] s[at]),
    decreases s.len(),
{
    reveal(Seq::filter);
    if s.len() > 0 {
        let front = s.drop_last();
        let kept = front.filter(pred);
        let all = s.filter(pred);
        lemma_filter_ascending(front, pred, key);
        // What was kept of the front stands in `s`, before its last member.
        assert forall|k: int| 0 <= k < kept.len() implies exists|at: int|
            0 <= at < front.len() && s[at] == #[trigger] kept[k] by {
            assert(front.contains(kept[k]));
            let at = choose|at: int| 0 <= at < front.len() && front[at] == kept[k];
            assert(s[at] == kept[k]);
        }
        assert forall|k: int| 0 <= k < all.len() implies pred(#[trigger] all[k]) && s.contains(
            all[k],
        ) by {
            if k < kept.len() {
                let at = choose|at: int| 0 <= at < front.len() && s[at] == kept[k];
                assert(s[at] == all[k]);
            } else {
                assert(s[s.len() - 1] == all[k]);
            }
        }
        assert forall|at: int| 0 <= at < s.len() && pred(s[at]) implies all.contains(
            #[trigger] s[at],
        ) by {
            if at < front.len() {
                assert(kept.contains(front[at]));
                let k = choose|k: int| 0 <= k < kept.len() && kept[k] == front[at];
                assert(all[k] == s[at]);
            } else {
                assert(all[all.len() - 1] == s[at]);
            }
        }
        assert forall|i: int, j: int| 0 <= i < j < all.len() implies key(all[i]) < key(all[j]) by {
            if j >= kept.len() {
                let at = choose|at: int| 0 <= at < front.len() && s[at] == kept[i];
                assert(key(s[at]) < key(s[s.len() - 1]));
            }
        }
    }
}

/// The purchased videos are exactly the videos that the buyer is entitled to
/// view, each once, by ascending id.
pub proof fn lemma_purchased_by_lists_access(ledger: Ledger, buyer: Seq<char>)
    requires
        ledger.wf(),
    ensures
        forall|id: int| ledger.purchased_by(buyer).contains(id) <==> ledger.has_access(buyer, id),
        forall|i: int, j: int|
            0 <= i < j < ledger.purchased_by(buyer).len() ==> ledger.purchased_by(buyer)[i]
                < ledger.purchased_by(buyer)[j],
{
    let ids = ledger.ids();
    let found = ledger.purchased_by(buyer);
    let entitled = |id: int| ledger.has_access(buyer, id);
    lemma_filter_ascending(ids, entitled, |id: int| id);
    assert forall|id: int| found.contains(id) <==> ledger.has_access(buyer, id) by {
        if ledger.has_access(buyer, id) {
            assert(ids[id - 1] == id);
        }
        if found.contains(id) {
            let k = choose|k: int| 0 <= k < found.len() && found[k] == id;
            assert(entitled(found[k]));
        }
    }
}

/// The videos of an uploader are exactly the videos that the uploader
/// uploaded, each once, by ascending id.
pub proof fn lemma_uploaded_by_lists_uploads(ledger: Ledger, uploader: Seq<char>)
    requires
        ledger.wf(),
    ensures
        forall|id: int|
            ledger.has_video(id) && ledger.video(id).uploader == uploader
                ==> ledger.uploaded_by(uploader).contains(#[trigger] ledger.video(id).info()),
        forall|k: int|
            0 <= k < ledger.uploaded_by(uploader).len() ==> {
                let info = #[trigger] ledger.uploaded_by(uploader)[k];
                &&& info.uploader == uploader
                &&& ledger.has_video(info.id)
                &&& info == ledger.video(info.id).info()
            },
        forall|i: int, j: int|
            0 <= i < j < ledger.uploaded_by(uploader).len() ==> ledger.uploaded_by(uploader)[i].id
                < ledger.uploaded_by(uploader)[j].id,
{
    let infos = ledger.infos();
    let found = ledger.uploaded_by(uploader);
    let by_uploader = |info: VideoInfoView| info.uploader == uploader;
    assert forall|i: int, j: int| 0 <= i < j < infos.len() implies infos[i].id < infos[j].id by {
        assert(ledger.videos[i].id == i + 1);
        assert(ledger.videos[j].id == j + 1);
    }
    lemma_filter_ascending(infos, by_uploader, |info: VideoInfoView| info.id);
    assert forall|id: int|
        ledger.has_video(id) && ledger.video(id).uploader == uploader implies found.contains(
        #[trigger] ledger.video(id).info(),
    ) by {
        assert(by_uploader(infos[id - 1]));
    }
    assert forall|k: int| 0 <= k < found.len() implies {
        let info = #[trigger] found[k];
        &&& info.uploader == uploader
        &&& ledger.has_video(info.id)
        &&& info == ledger.video(info.id).info()
    } by {
        assert(infos.contains(found[k]));
        let at = choose|at: int| 0 <= at < infos.len() && infos[at] == found[k];
        assert(ledger.videos[at].id == at + 1);
    }
}

} // verus!
