use pay_to_view::{
    Authorization, Error, Event, EventLog, Identity, PayToViewContract, Payment, Transfer,
    VideoPurchasedEvent, VideoUploadedEvent,
};

fn id(key: &str) -> Identity {
    Identity::new(key.to_string())
}

fn signed(key: &str) -> Authorization {
    Authorization::single(id(key))
}

#[test]
fn upload_buy_and_view() {
    let mut contract = PayToViewContract::new();
    let mut log = EventLog::new();
    assert_eq!(contract.initialize(&signed("owner"), id("owner")), Ok(()));

    let video = contract.upload(
        &signed("alice"),
        &mut log,
        id("alice"),
        "cid1".to_string(),
        "tcid1".to_string(),
        "T".to_string(),
        "D".to_string(),
        100,
        1_700_000_000,
    );
    assert_eq!(video, Ok(1));

    let order = contract.quote(&signed("bob"), &id("bob"), 1, &id("tokenX"));
    assert_eq!(
        order,
        Ok(Transfer::Deposit { token: id("tokenX"), payer: id("bob"), amount: 100 })
    );
    assert!(!contract.has_access(&id("bob"), 1));

    assert_eq!(
        contract.buy(&signed("bob"), &mut log, &id("bob"), 1, &id("tokenX"), Payment::Settled),
        Ok(())
    );
    assert!(contract.has_access(&id("bob"), 1));
    assert_eq!(
        contract.view(&signed("bob"), &id("bob"), 1),
        Ok(("cid1".to_string(), "tcid1".to_string()))
    );
    assert_eq!(contract.view(&signed("carol"), &id("carol"), 1), Err(Error::AccessDenied));

    let events = log.into_entries();
    assert_eq!(
        events,
        vec![
            Event::Uploaded(VideoUploadedEvent {
                video_id: 1,
                uploader: id("alice"),
                title: "T".to_string(),
                price: 100,
            }),
            Event::Purchased(VideoPurchasedEvent {
                video_id: 1,
                buyer: id("bob"),
                price: 100,
                token: id("tokenX"),
            }),
        ]
    );
}

#[test]
fn a_ledger_works_without_an_owner() {
    let mut contract = PayToViewContract::new();
    let mut log = EventLog::new();
    let video = contract.upload(
        &signed("alice"),
        &mut log,
        id("alice"),
        "cid".to_string(),
        "thumb".to_string(),
        "title".to_string(),
        String::new(),
        7,
        1,
    );
    assert_eq!(video, Ok(1));
    assert_eq!(contract.initialize(&signed("owner"), id("owner")), Ok(()));
    assert_eq!(contract.get_video_count(), 1);
    assert_eq!(contract.get_video_info(1).map(|info| info.price), Ok(7));
    let next = contract.upload(
        &signed("alice"),
        &mut log,
        id("alice"),
        "cid".to_string(),
        "thumb".to_string(),
        "title".to_string(),
        String::new(),
        7,
        2,
    );
    assert_eq!(next, Ok(2));
}
