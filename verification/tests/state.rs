use pay_to_view::{
    Authorization, Error, Event, EventLog, Identity, PayToViewContract, Payment, Video,
    VideoUploadedEvent,
};

fn id(key: &str) -> Identity {
    Identity::new(key.to_string())
}

fn video(video_id: i64, uploader: &str, price: i128) -> Video {
    Video {
        id: video_id,
        uploader: id(uploader),
        video_ipfs: format!("cid{video_id}"),
        thumbnail_ipfs: format!("thumb{video_id}"),
        title: format!("title{video_id}"),
        description: String::new(),
        price,
        upload_timestamp: 1000,
    }
}

#[test]
fn an_identity_is_its_key() {
    assert_eq!(id("alice"), id("alice"));
    assert_ne!(id("alice"), id("Alice"));
    assert_ne!(id("alice"), id("alice "));
    assert_eq!(id("alice").key(), "alice");
    assert_eq!(id("alice").clone(), id("alice"));
}

#[test]
fn the_guard_knows_the_signers() {
    let auth = Authorization::new(vec![id("alice"), id("bob")]);
    assert!(auth.covers(&id("alice")));
    assert!(auth.covers(&id("bob")));
    assert!(!auth.covers(&id("carol")));
    assert_eq!(auth.authenticate(&id("bob")), Ok(()));
    assert_eq!(auth.authenticate(&id("carol")), Err(Error::Unauthorized));
    assert_eq!(Authorization::none().authenticate(&id("alice")), Err(Error::Unauthorized));
    assert_eq!(Authorization::single(id("alice")).authenticate(&id("alice")), Ok(()));
    assert_eq!(Authorization::single(id("alice")).authenticate(&id("bob")), Err(Error::Unauthorized));
}

#[test]
fn an_invocation_with_two_signers_acts_for_both() {
    let both = Authorization::new(vec![id("alice"), id("bob")]);
    let mut contract = PayToViewContract::new();
    let mut log = EventLog::new();
    let uploaded = contract.upload(
        &both,
        &mut log,
        id("alice"),
        "cid".to_string(),
        "thumb".to_string(),
        "title".to_string(),
        String::new(),
        3,
        1000,
    );
    assert_eq!(uploaded, Ok(1));
    assert_eq!(contract.buy(&both, &mut log, &id("bob"), 1, &id("tokenX"), Payment::Settled), Ok(()));
    assert_eq!(
        contract.buy(&both, &mut log, &id("carol"), 1, &id("tokenX"), Payment::Settled),
        Err(Error::Unauthorized)
    );
    assert_eq!(log.len(), 2);
}

#[test]
fn the_log_keeps_facts_in_order() {
    let mut log = EventLog::new();
    assert_eq!(log.len(), 0);
    assert_eq!(log.get(0), None);
    let first = || Event::Uploaded(VideoUploadedEvent {
        video_id: 1,
        uploader: id("alice"),
        title: "a".to_string(),
        price: 1,
    });
    let second = || Event::Uploaded(VideoUploadedEvent {
        video_id: 2,
        uploader: id("bob"),
        title: "b".to_string(),
        price: 2,
    });
    log.record(first());
    log.record(second());
    assert_eq!(log.len(), 2);
    assert_eq!(log.get(0), Some(&first()));
    assert_eq!(log.get(1), Some(&second()));
    assert_eq!(log.get(2), None);
    assert_eq!(log.into_entries(), vec![first(), second()]);
}

#[test]
fn the_state_survives_safekeeping() {
    let mut contract = PayToViewContract::new();
    let mut log = EventLog::new();
    let alice = Authorization::single(id("alice"));
    let bob = Authorization::single(id("bob"));
    contract.initialize(&alice, id("alice")).unwrap();
    for n in 1..=2 {
        contract
            .upload(
                &alice,
                &mut log,
                id("alice"),
                format!("cid{n}"),
                format!("thumb{n}"),
                format!("title{n}"),
                String::new(),
                50,
                1000,
            )
            .unwrap();
    }
    contract.buy(&bob, &mut log, &id("bob"), 2, &id("tokenX"), Payment::Settled).unwrap();

    let (owner, videos, buyers) = contract.into_parts();
    assert_eq!(owner, Some(id("alice")));
    assert_eq!(videos, vec![video(1, "alice", 50), video(2, "alice", 50)]);
    assert_eq!(buyers, vec![vec![], vec![id("bob")]]);

    let mut again = PayToViewContract::restore(owner, videos, buyers).unwrap();
    assert_eq!(again.get_video_count(), 2);
    assert!(again.has_access(&id("bob"), 2));
    assert!(!again.has_access(&id("bob"), 1));
    assert_eq!(again.initialize(&alice, id("alice")), Err(Error::Unauthorized));
    assert_eq!(
        again.view(&bob, &id("bob"), 2),
        Ok(("cid2".to_string(), "thumb2".to_string()))
    );
    let third = again.upload(
        &alice,
        &mut log,
        id("alice"),
        "cid3".to_string(),
        "thumb3".to_string(),
        "title3".to_string(),
        String::new(),
        50,
        1000,
    );
    assert_eq!(third, Ok(3));
}

#[test]
fn an_empty_state_is_taken_up() {
    let contract = PayToViewContract::restore(None, vec![], vec![]).unwrap();
    assert_eq!(contract.get_video_count(), 0);
    let (owner, videos, buyers) = contract.into_parts();
    assert_eq!(owner, None);
    assert_eq!(videos, vec![]);
    assert_eq!(buyers, Vec::<Vec<Identity>>::new());
}

#[test]
fn a_state_with_a_gap_in_the_ids_is_refused() {
    assert!(PayToViewContract::restore(None, vec![video(2, "alice", 5)], vec![vec![]]).is_none());
    assert!(PayToViewContract::restore(None, vec![video(0, "alice", 5)], vec![vec![]]).is_none());
    assert!(PayToViewContract::restore(
        None,
        vec![video(1, "alice", 5), video(3, "alice", 5)],
        vec![vec![], vec![]]
    )
    .is_none());
    assert!(PayToViewContract::restore(
        None,
        vec![video(1, "alice", 5), video(1, "alice", 5)],
        vec![vec![], vec![]]
    )
    .is_none());
}

#[test]
fn a_state_with_a_record_that_no_upload_makes_is_refused() {
    assert!(PayToViewContract::restore(None, vec![video(1, "alice", -1)], vec![vec![]]).is_none());
    let mut untitled = video(1, "alice", 5);
    untitled.title = String::new();
    assert!(PayToViewContract::restore(None, vec![untitled], vec![vec![]]).is_none());
    let mut without_content = video(1, "alice", 5);
    without_content.video_ipfs = String::new();
    assert!(PayToViewContract::restore(None, vec![without_content], vec![vec![]]).is_none());
    let mut without_thumbnail = video(1, "alice", 5);
    without_thumbnail.thumbnail_ipfs = String::new();
    assert!(PayToViewContract::restore(None, vec![without_thumbnail], vec![vec![]]).is_none());
}

#[test]
fn a_state_with_a_buyer_listed_twice_is_refused() {
    assert!(PayToViewContract::restore(
        None,
        vec![video(1, "alice", 5)],
        vec![vec![id("bob"), id("carol"), id("bob")]]
    )
    .is_none());
    assert!(PayToViewContract::restore(
        None,
        vec![video(1, "alice", 5)],
        vec![vec![id("bob"), id("carol"), id("dave")]]
    )
    .is_some());
}

#[test]
fn a_state_with_buyers_of_no_video_is_refused() {
    assert!(PayToViewContract::restore(None, vec![], vec![vec![]]).is_none());
    assert!(PayToViewContract::restore(None, vec![video(1, "alice", 5)], vec![]).is_none());
    assert!(PayToViewContract::restore(
        None,
        vec![video(1, "alice", 5)],
        vec![vec![], vec![id("bob")]]
    )
    .is_none());
}
